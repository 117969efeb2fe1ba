//! Where a URL or file path leads, said of its characters and of what it parses to.

use std::path::PathBuf;
use vstd::prelude::*;

use crate::errors::ResolveErrorView;
use crate::paths;
use crate::paths::{LocalPathView, PathSourceView};
use crate::remote_url;
use crate::resolve_path;
use crate::resolve_path::{FileStepView, LocatedView, ReferenceView};
use crate::text;

verus! {

/// The scheme of a URL is what stands before its first colon, and nothing can be resolved
/// against the URL unless a slash follows that colon.
pub proof fn a_url_is_read_at_its_first_colon(scheme: Seq<char>, rest: Seq<char>)
    requires
        !scheme.contains(':'),
    ensures
        remote_url::scheme_of(scheme + seq![':'] + rest) == scheme,
        remote_url::opaque(scheme + seq![':'] + rest) <==> rest.len() == 0 || rest[0] != '/',
{
    let all = scheme + seq![':'] + rest;
    assert forall|i: int| 0 <= i < scheme.len() implies #[trigger] all[i] != ':' by {
        assert(all[i] == scheme[i]);
    }
    text::lemma_first_index_is(all, ':', scheme.len() as int);
    assert(all.take(scheme.len() as int) =~= scheme);
    if rest.len() > 0 {
        assert(all[scheme.len() as int + 1] == rest[0]);
    }
}

/// A letter, a colon and exactly one slash of either kind start an absolute Windows path,
/// and nothing else does.
pub proof fn a_windows_path_starts_with_a_drive(text: Seq<char>)
    ensures
        resolve_path::absolute_windows_path(text) <==> {
            &&& text.len() >= 3
            &&& resolve_path::alphabetic(text[0])
            &&& text[1] == ':'
            &&& text[2] == '/' || text[2] == '\\'
            &&& text.len() == 3 || !(text[3] == '/' || text[3] == '\\')
        },
{
}

/// An absolute URL of any scheme but `file` leads to itself, wherever it was written.
pub proof fn an_absolute_url_leads_to_itself<E>(
    text: Seq<char>,
    url: Seq<char>,
    base: PathSourceView,
    home_dir: Option<PathBuf>,
    file_path: Option<PathBuf>,
)
    requires
        !resolve_path::absolute_windows_path(text),
        remote_url::url_parse(text) == Ok::<Seq<char>, Seq<char>>(url),
        !remote_url::opaque(url),
        remote_url::scheme_of(url) != "file"@,
    ensures
        resolve_path::location::<E>(text, base, home_dir, file_path) == Ok::<
            LocatedView,
            ResolveErrorView<E>,
        >(LocatedView::Source(PathSourceView::Remote { url })),
{
}

/// A `file` URL leads to the canonical form of the path that it is converted to, wherever
/// it was written, and to an error that names it where there is no such path.
pub proof fn a_file_url_leads_to_its_path<E>(
    text: Seq<char>,
    url: Seq<char>,
    base: PathSourceView,
    home_dir: Option<PathBuf>,
    path: PathBuf,
)
    requires
        !resolve_path::absolute_windows_path(text),
        remote_url::url_parse(text) == Ok::<Seq<char>, Seq<char>>(url),
        !remote_url::opaque(url),
        remote_url::scheme_of(url) == "file"@,
    ensures
        resolve_path::reference_of(text) == ReferenceView::FileUrl,
        resolve_path::location::<E>(text, base, home_dir, Some(path)) == Ok::<
            LocatedView,
            ResolveErrorView<E>,
        >(LocatedView::Canonicalize(LocalPathView { base: path, joined: Seq::empty() })),
        resolve_path::location::<E>(text, base, home_dir, None) == Err::<
            LocatedView,
            ResolveErrorView<E>,
        >(ResolveErrorView::NotAFilePath(text)),
{
}

/// What follows `~/` leads into the home directory, wherever it was written, unless the
/// whole is a URL. The home directory itself is taken as it is. Without a home directory
/// there is an error.
pub proof fn a_tilde_leads_into_the_home_directory<E>(
    rest: Seq<char>,
    base: PathSourceView,
    home_dir: PathBuf,
    file_path: Option<PathBuf>,
)
    requires
        remote_url::url_parse(seq!['~', '/'] + rest) is Err,
    ensures
        ({
            let text = seq!['~', '/'] + rest;
            let located = resolve_path::location::<E>(text, base, Some(home_dir), file_path);
            &&& rest.len() > 0 ==> located == Ok::<LocatedView, ResolveErrorView<E>>(
                LocatedView::Canonicalize(LocalPathView { base: home_dir, joined: seq![rest] }),
            )
            &&& rest.len() == 0 ==> located == Ok::<LocatedView, ResolveErrorView<E>>(
                LocatedView::Source(
                    PathSourceView::Local {
                        path: LocalPathView { base: home_dir, joined: Seq::empty() },
                        origin: None,
                    },
                ),
            )
            &&& resolve_path::location::<E>(text, base, None, file_path) == Err::<
                LocatedView,
                ResolveErrorView<E>,
            >(ResolveErrorView::NoHomeDirectory)
        }),
{
    let text = seq!['~', '/'] + rest;
    assert(text[1] == '/');
    assert(text.skip(2) =~= rest);
    assert(Seq::<Seq<char>>::empty().push(rest) =~= seq![rest]);
}

/// What is no URL that others can be resolved against, and does not start with `~/`, is
/// relative: to a URL it is joined as it stands, to a path it is joined as it stands and
/// made canonical, and to an npm package it can't be.
pub proof fn anything_else_is_relative<E>(
    text: Seq<char>,
    base: PathSourceView,
    home_dir: Option<PathBuf>,
    file_path: Option<PathBuf>,
)
    requires
        ({
            ||| resolve_path::absolute_windows_path(text)
            ||| remote_url::url_parse(text) matches Ok(url) && remote_url::opaque(url)
            ||| remote_url::url_parse(text) is Err && !(text.len() >= 2 && text[0] == '~' && text[1]
                == '/')
        }),
    ensures
        match base {
            PathSourceView::Remote { url } => match remote_url::url_join(url, text) {
                Ok(joined) => resolve_path::location::<E>(text, base, home_dir, file_path) == Ok::<
                    LocatedView,
                    ResolveErrorView<E>,
                >(LocatedView::Source(PathSourceView::Remote { url: joined })),
                Err(message) => resolve_path::location::<E>(text, base, home_dir, file_path)
                    == Err::<LocatedView, ResolveErrorView<E>>(
                    ResolveErrorView::InvalidUrl(message),
                ),
            },
            PathSourceView::Local { path, .. } => resolve_path::location::<E>(
                text,
                base,
                home_dir,
                file_path,
            ) == Ok::<LocatedView, ResolveErrorView<E>>(
                LocatedView::Canonicalize(
                    LocalPathView { base: path.base, joined: path.joined.push(text) },
                ),
            ),
            PathSourceView::Npm { .. } => resolve_path::location::<E>(
                text,
                base,
                home_dir,
                file_path,
            ) == Err::<LocatedView, ResolveErrorView<E>>(ResolveErrorView::NpmIsNoBase),
        },
{
}

/// A file behind a URL is fetched from that URL, one on this machine is read where it is,
/// with the origin that it has, and one of an npm package can be neither.
pub proof fn a_file_is_had_from_where_it_is<E>(
    url: Seq<char>,
    path: LocalPathView,
    origin: Option<Seq<char>>,
    source: PathSourceView,
    now: u64,
)
    ensures
        ({
            let remote = PathSourceView::Remote { url };
            let local = PathSourceView::Local { path, origin };
            &&& match resolve_path::file_step::<E>(remote, now) {
                FileStepView::Fetch(fetch) => fetch.url == url && fetch.current == url && fetch.now
                    == now,
                _ => false,
            }
            &&& resolve_path::file_step::<E>(local, now) == FileStepView::<E>::Read { path, origin }
            &&& source is Npm ==> resolve_path::file_step::<E>(source, now) == FileStepView::<
                E,
            >::Failed(ResolveErrorView::NpmNotUrlOrFilePath)
        }),
{
}

/// A path that has to be canonical is made so before it is read, and is then read from
/// there without an origin; a failure to make it so, or to find the file, is the outcome.
pub proof fn a_path_is_made_canonical_before_it_is_read<E>(
    path: LocalPathView,
    source: PathSourceView,
    canonical: PathBuf,
    error: E,
    failure: ResolveErrorView<E>,
    now: u64,
)
    ensures
        ({
            let read = PathSourceView::Local {
                path: LocalPathView { base: canonical, joined: Seq::empty() },
                origin: None,
            };
            &&& resolve_path::located_step::<E>(Ok(LocatedView::Canonicalize(path)), now)
                == FileStepView::<E>::Canonicalize { path, now }
            &&& resolve_path::located_step::<E>(Ok(LocatedView::Source(source)), now)
                == resolve_path::file_step::<E>(source, now)
            &&& resolve_path::located_step::<E>(Err(failure), now) == FileStepView::Failed(failure)
            &&& resolve_path::canonicalized_source::<E>(Ok(canonical)) == Ok::<
                PathSourceView,
                ResolveErrorView<E>,
            >(read)
            &&& resolve_path::canonicalized_source::<E>(Err(error)) == Err::<
                PathSourceView,
                ResolveErrorView<E>,
            >(ResolveErrorView::Environment(error))
        }),
{
}

/// A file URL is converted as it stands, to what `Url::to_file_path` makes of it on one
/// operating system.
pub proof fn a_file_url_is_converted_as_it_stands(text: Seq<char>, path: PathBuf)
    ensures
        ({
            let whole = LocalPathView { base: path, joined: Seq::empty() };
            &&& remote_url::converted(text, Some(path)) <==> exists|os: Seq<char>|
                #[trigger] remote_url::file_path_on(os, text) == Some(whole)
            &&& remote_url::converted(text, None) <==> exists|os: Seq<char>|
                #[trigger] remote_url::file_path_on(os, text) == None::<LocalPathView>
        }),
{
}

/// A path is shown as `Path::display` shows, on one operating system, the path that joining
/// its names makes.
pub proof fn a_path_is_shown_as_the_whole(path: LocalPathView, display: Seq<char>)
    ensures
        paths::shown(path, display) <==> exists|whole: PathBuf, os: Seq<char>|
            paths::joins_all(path.base, path.joined, whole) && #[trigger] paths::display_on(
                os,
                LocalPathView::whole(whole),
            ) == display,
{
    if paths::shown(path, display) {
        let whole = choose|whole: PathBuf|
            paths::joins_all(path.base, path.joined, whole) && #[trigger] paths::displays(
                whole,
                display,
            );
        let os = choose|os: Seq<char>|
            #[trigger] paths::display_on(os, LocalPathView::whole(whole)) == display;
        assert(paths::display_on(os, LocalPathView::whole(whole)) == display);
    }
    if exists|whole: PathBuf, os: Seq<char>|
        paths::joins_all(path.base, path.joined, whole) && #[trigger] paths::display_on(
            os,
            LocalPathView::whole(whole),
        ) == display {
        let (whole, os): (PathBuf, Seq<char>) = choose|whole: PathBuf, os: Seq<char>|
            paths::joins_all(path.base, path.joined, whole) && #[trigger] paths::display_on(
                os,
                LocalPathView::whole(whole),
            ) == display;
        assert(paths::displays(whole, display));
    }
}

} // verus!
