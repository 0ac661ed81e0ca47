//! Laws of workspaces.

use vstd::prelude::*;

use crate::paths::{self, paths_equal};
use crate::text;
use crate::traits::{
    SearchMatch, SearchQuery, SearchResult, Workspace, WorkspaceError, WorkspaceStatus,
};
use crate::workspace::{self, FakeWorkspace, FileView, MatchView};

verus! {

// ---------------------------------------------------------------------------
// Reading and writing
// ---------------------------------------------------------------------------

/// What was written at a path is what is read there, by whichever name of the
/// path; what is read at any other path stays what it was. A write succeeds
/// exactly where writes are permitted, and one that fails changes nothing.
pub proof fn a_read_follows_a_write(
    before: &mut FakeWorkspace,
    path: &str,
    data: Vec<u8>,
    done: Result<(), WorkspaceError>,
    other: &str,
    same: bool,
    was: Result<Vec<u8>, WorkspaceError>,
    now: Result<Vec<u8>, WorkspaceError>,
)
    requires
        old(before).wf(),
        call_ensures(FakeWorkspace::write, (before, path, data), done),
        call_ensures(paths_equal, (path, other), same),
        call_ensures(FakeWorkspace::read, (old(before), other), was),
        call_ensures(FakeWorkspace::read, (final(before), other), now),
    ensures
        done is Ok <==> old(before).writable(),
        done is Err ==> done->Err_0 is PermissionDenied && done->Err_0->PermissionDenied_0@
            == path@ && *final(before) == *old(before),
        done is Ok && same ==> now is Ok && now->Ok_0@ == data@,
        !same || done is Err ==> (now is Ok <==> was is Ok),
        (!same || done is Err) && now is Ok ==> now->Ok_0@ == was->Ok_0@,
        final(before).root() == old(before).root(),
        final(before).writable() == old(before).writable(),
{
    let files = old(before).files();
    let after = final(before).files();
    assert(forall|i: int| #[trigger]
        workspace::file_at(final(before).files(), other@, i) ==> now is Ok);
    if done is Ok {
        if same {
            workspace::a_read_gives_back_what_was_written(files, after, path@, other@, data@);
            let i = choose|i: int| #[trigger]
                workspace::file_at(after, other@, i) && after[i].data == data@;
            assert(workspace::file_at(after, other@, i));
        } else {
            assert forall|i: int|
                workspace::file_at(files, other@, i) <==> #[trigger] workspace::file_at(
                    after,
                    other@,
                    i,
                ) by {
                workspace::a_write_leaves_other_files_alone(
                    files,
                    after,
                    path@,
                    other@,
                    data@,
                    i,
                );
            }
            if workspace::has_file(files, other@) {
                let i = choose|i: int| workspace::file_at(files, other@, i);
                workspace::a_write_leaves_other_files_alone(
                    files,
                    after,
                    path@,
                    other@,
                    data@,
                    i,
                );
                assert(workspace::file_at(after, other@, i));
            } else {
                assert forall|i: int| !workspace::file_at(after, other@, i) by {
                    assert(!workspace::file_at(files, other@, i));
                }
            }
        }
    } else {
        if workspace::has_file(files, other@) {
            let i = choose|i: int| workspace::file_at(files, other@, i);
            assert(workspace::file_at(files, other@, i));
        }
    }
}

/// A file is read exactly where one is at a path of the same components; where
/// there is none, the error names the path.
pub proof fn a_file_is_read_at_its_path(
    from: &FakeWorkspace,
    path: &str,
    r: Result<Vec<u8>, WorkspaceError>,
)
    requires
        call_ensures(FakeWorkspace::read, (from, path), r),
    ensures
        r is Ok <==> exists|i: int|
            0 <= i < from.files().len() && paths::components((#[trigger] from.files()[i]).path)
                == paths::components(path@),
        forall|i: int|
            0 <= i < from.files().len() && paths::components((#[trigger] from.files()[i]).path)
                == paths::components(path@) ==> r is Ok && r->Ok_0@ == from.files()[i].data,
        r is Err ==> r->Err_0 is NotFound && r->Err_0->NotFound_0@ == path@,
{
    assert forall|i: int|
        0 <= i < from.files().len() && paths::components((#[trigger] from.files()[i]).path)
            == paths::components(path@) implies r is Ok && r->Ok_0@ == from.files()[i].data by {
        assert(workspace::file_at(from.files(), path@, i));
    }
    if workspace::has_file(from.files(), path@) {
        let i = choose|i: int| workspace::file_at(from.files(), path@, i);
        assert(paths::components(from.files()[i].path) == paths::components(path@));
    }
}

/// A seeded file is there whether writes are permitted or not, and neither the
/// root nor the permission changes; setting the root or forbidding writes
/// leaves the files alone.
pub proof fn a_workspace_is_prepared_step_by_step(
    fresh: FakeWorkspace,
    root: String,
    rooted: FakeWorkspace,
    path: String,
    data: Vec<u8>,
    seeded: FakeWorkspace,
    sealed: FakeWorkspace,
    at: &str,
    read: Result<Vec<u8>, WorkspaceError>,
    status: Result<WorkspaceStatus, WorkspaceError>,
)
    requires
        call_ensures(FakeWorkspace::new, (), fresh),
        call_ensures(FakeWorkspace::with_root, (fresh, root), rooted),
        call_ensures(FakeWorkspace::with_file, (rooted, path, data), seeded),
        call_ensures(FakeWorkspace::read_only, (seeded,), sealed),
        at@ == path@,
        call_ensures(FakeWorkspace::read, (&sealed, at), read),
        call_ensures(FakeWorkspace::status, (&sealed,), status),
    ensures
        fresh.writable() && fresh.root() is None && fresh.files().len() == 0,
        rooted.writable() && rooted.root() == Some(root),
        seeded.writable() && seeded.root() == Some(root) && seeded.files().len() == 1,
        !sealed.writable() && sealed.root() == Some(root),
        read is Ok && read->Ok_0@ == data@,
        status is Ok && status->Ok_0.root == Some(root) && status->Ok_0.file_count == 1
            && !status->Ok_0.is_writable,
{
    assert(!workspace::has_file(rooted.files(), path@));
    let file = FileView { path: path@, data: data@ };
    assert(seeded.files() == rooted.files().push(file));
    assert(sealed.files()[0] == file);
    assert(workspace::file_at(sealed.files(), at@, 0));
}

/// A file that a workspace is seeded with is read there, by whichever name of
/// its path, whatever else the workspace holds; what is read at any other path
/// stays what it was.
pub proof fn a_seeded_file_is_read(
    before: FakeWorkspace,
    path: String,
    data: Vec<u8>,
    after: FakeWorkspace,
    name: &str,
    other: &str,
    same: bool,
    was: Result<Vec<u8>, WorkspaceError>,
    now: Result<Vec<u8>, WorkspaceError>,
)
    requires
        before.wf(),
        call_ensures(FakeWorkspace::with_file, (before, path, data), after),
        name@ == path@,
        call_ensures(paths_equal, (name, other), same),
        call_ensures(FakeWorkspace::read, (&before, other), was),
        call_ensures(FakeWorkspace::read, (&after, other), now),
    ensures
        same ==> now is Ok && now->Ok_0@ == data@,
        !same ==> (now is Ok <==> was is Ok),
        !same && now is Ok ==> now->Ok_0@ == was->Ok_0@,
        after.root() == before.root(),
        after.writable() == before.writable(),
{
    let files = before.files();
    let all = after.files();
    assert(forall|i: int| #[trigger]
        workspace::file_at(after.files(), other@, i) ==> now is Ok);
    if same {
        workspace::a_read_gives_back_what_was_written(files, all, path@, other@, data@);
        let i = choose|i: int| #[trigger]
            workspace::file_at(all, other@, i) && all[i].data == data@;
        assert(workspace::file_at(all, other@, i));
    } else {
        if workspace::has_file(files, other@) {
            let i = choose|i: int| workspace::file_at(files, other@, i);
            workspace::a_write_leaves_other_files_alone(files, all, path@, other@, data@, i);
            assert(workspace::file_at(all, other@, i));
        } else {
            assert forall|i: int| !workspace::file_at(all, other@, i) by {
                workspace::a_write_leaves_other_files_alone(
                    files,
                    all,
                    path@,
                    other@,
                    data@,
                    i,
                );
                assert(!workspace::file_at(files, other@, i));
            }
        }
    }
}

/// The status of a workspace is its root, how many files it has and whether
/// writes are permitted. By default they are not.
pub proof fn a_status_tells_the_workspace(
    of: &FakeWorkspace,
    r: Result<WorkspaceStatus, WorkspaceError>,
    default: FakeWorkspace,
)
    requires
        call_ensures(FakeWorkspace::status, (of,), r),
        call_ensures(FakeWorkspace::default, (), default),
    ensures
        r is Ok,
        r->Ok_0.root == of.root(),
        r->Ok_0.file_count == of.files().len(),
        r->Ok_0.is_writable == of.writable(),
        !default.writable(),
        default.files().len() == 0,
        default.root() is None,
{
}

/// An error of a workspace says what was wrong, and where.
pub proof fn a_workspace_error_says_what_was_wrong(error: &WorkspaceError, r: String)
    requires
        call_ensures(WorkspaceError::message, (error,), r),
    ensures
        error is NotFound ==> r@ == "path not found: "@ + error->NotFound_0@,
        error is PermissionDenied ==> r@ == "permission denied: "@ + error->PermissionDenied_0@,
        error is Io ==> r@ == "workspace I/O error: "@ + error->Io_0@,
{
}

// ---------------------------------------------------------------------------
// Searching
// ---------------------------------------------------------------------------

/// The pieces of a file between its line feeds.
pub open spec fn pieces(file: FileView) -> Seq<Seq<char>> {
    text::split(text::utf8_lossy(file.data), '\n')
}

/// Whether piece `n` of a file is a line: every one is, but for an empty last
/// one.
pub open spec fn is_line(file: FileView, n: int) -> bool {
    0 <= n < pieces(file).len() && !(n == pieces(file).len() - 1 && pieces(file)[n].len() == 0)
}

/// Line `n` of a file, without what ended it: a line feed, or a carriage
/// return and a line feed.
pub open spec fn line_of(file: FileView, n: int) -> Seq<char> {
    let piece = pieces(file)[n];
    if n + 1 < pieces(file).len() && piece.len() > 0 && piece[piece.len() - 1] == '\r' {
        piece.take(piece.len() - 1)
    } else {
        piece
    }
}

/// Whether a query looks into a file.
pub open spec fn looked_into(file: FileView, query: SearchQuery) -> bool {
    query.path_prefix is None || exists|rest: Seq<Seq<char>>|
        paths::components(file.path) == #[trigger] (paths::components(query.path_prefix->0@)
            + rest)
}

/// Whether line `place.1` of file `place.0` is one that a query is about.
pub open spec fn is_hit(files: Seq<FileView>, query: SearchQuery, place: (int, int)) -> bool {
    &&& 0 <= place.0 < files.len()
    &&& looked_into(files[place.0], query)
    &&& is_line(files[place.0], place.1)
    &&& text::occurs(line_of(files[place.0], place.1), query.pattern@)
}

/// Whether one place comes before another: in an earlier file, or in an
/// earlier line of the same one.
pub open spec fn earlier(a: (int, int), b: (int, int)) -> bool {
    a.0 < b.0 || a.0 == b.0 && a.1 < b.1
}

/// Whether a match shows the line at a place: the file's path, the number of
/// the line counted from one, and its first 200 characters, or all of them.
pub open spec fn shows(files: Seq<FileView>, place: (int, int), found: MatchView) -> bool {
    let line = line_of(files[place.0], place.1);
    &&& found.path == files[place.0].path
    &&& found.line == place.1 + 1
    &&& found.preview.len() == if line.len() < 200 { line.len() as int } else { 200 }
    &&& found.preview == line.take(found.preview.len() as int)
}

/// Whether `places` are the hits of a query, all of them, in order, as far as
/// the first `n` files go, and `found` shows them one by one.
pub open spec fn found_at(
    files: Seq<FileView>,
    query: SearchQuery,
    places: Seq<(int, int)>,
    found: Seq<MatchView>,
    n: int,
) -> bool {
    &&& places.len() == found.len()
    &&& forall|i: int|
        0 <= i < places.len() ==> is_hit(files, query, #[trigger] places[i]) && places[i].0 < n
            && shows(files, places[i], found[i])
    &&& forall|i: int, j: int|
        0 <= i < j < places.len() ==> earlier(#[trigger] places[i], #[trigger] places[j])
    &&& forall|place: (int, int)| #[trigger]
        is_hit(files, query, place) && place.0 < n ==> places.contains(place)
}

proof fn looking_into_is_being_searched(file: FileView, query: SearchQuery)
    ensures
        workspace::searched(file, query.path_prefix) <==> looked_into(file, query),
{
    if let Some(base) = query.path_prefix {
        let all = paths::components(file.path);
        let head = paths::components(base@);
        if paths::lies_below(file.path, base@) {
            let rest = all.skip(head.len() as int);
            assert(all =~= all.take(head.len() as int) + rest);
            assert(all == head + rest);
        }
        if exists|rest: Seq<Seq<char>>| all == #[trigger] (head + rest) {
            let rest = choose|rest: Seq<Seq<char>>| all == #[trigger] (head + rest);
            assert(all.take(head.len() as int) =~= head);
        }
    }
}

/// The places of the matches in the first `n` lines of file `f`.
proof fn places_in_a_file(
    files: Seq<FileView>,
    query: SearchQuery,
    f: int,
    n: int,
) -> (places: Seq<(int, int)>)
    requires
        0 <= f < files.len(),
        looked_into(files[f], query),
        0 <= n <= workspace::line_count(pieces(files[f])),
    ensures
        ({
            let found = workspace::matches_in(
                files[f].path,
                pieces(files[f]),
                query.pattern@,
                n,
            );
            &&& places.len() == found.len()
            &&& forall|i: int|
                0 <= i < places.len() ==> is_hit(files, query, #[trigger] places[i]) && places[i].0
                    == f && places[i].1 < n && shows(files, places[i], found[i])
            &&& forall|i: int, j: int|
                0 <= i < j < places.len() ==> earlier(#[trigger] places[i], #[trigger] places[j])
            &&& forall|place: (int, int)| #[trigger]
                is_hit(files, query, place) && place.0 == f && place.1 < n ==> places.contains(
                    place,
                )
        }),
    decreases n,
{
    let file = files[f];
    if n == 0 {
        Seq::empty()
    } else {
        let rest = places_in_a_file(files, query, f, n - 1);
        let line = workspace::line_at(pieces(file), n - 1);
        assert(line =~= line_of(file, n - 1));
        assert(is_line(file, n - 1));
        let before = workspace::matches_in(file.path, pieces(file), query.pattern@, n - 1);
        if text::occurs(line, query.pattern@) {
            let place = (f, n - 1);
            let all = rest.push(place);
            let found = workspace::matches_in(file.path, pieces(file), query.pattern@, n);
            assert(is_hit(files, query, place));
            assert(found == before.push(found.last()));
            assert(shows(files, place, found.last())) by {
                assert(text::prefix(line, 200) =~= line.take(
                    text::prefix(line, 200).len() as int,
                ));
            }
            assert forall|i: int| 0 <= i < all.len() implies is_hit(files, query, #[trigger] all[i])
                && all[i].0 == f && all[i].1 < n && shows(files, all[i], found[i]) by {
                if i < rest.len() {
                    assert(all[i] == rest[i]);
                    assert(found[i] == before[i]);
                }
            }
            assert forall|other: (int, int)| #[trigger]
                is_hit(files, query, other) && other.0 == f && other.1 < n implies all.contains(
                other,
            ) by {
                if other.1 < n - 1 {
                    assert(rest.contains(other));
                    let k = choose|k: int| 0 <= k < rest.len() && rest[k] == other;
                    assert(all[k] == other);
                } else {
                    assert(all[rest.len() as int] == other);
                }
            }
            all
        } else {
            assert forall|other: (int, int)| #[trigger]
                is_hit(files, query, other) && other.0 == f && other.1 < n implies rest.contains(
                other,
            ) by {
                assert(other.1 < n - 1);
            }
            rest
        }
    }
}

proof fn places_in_files(files: Seq<FileView>, query: SearchQuery, n: int) -> (places: Seq<
    (int, int),
>)
    requires
        0 <= n <= files.len(),
    ensures
        found_at(files, query, places, workspace::all_matches(files, query, n), n),
    decreases n,
{
    if n == 0 {
        Seq::empty()
    } else {
        let rest = places_in_files(files, query, n - 1);
        let before = workspace::all_matches(files, query, n - 1);
        let file = files[n - 1];
        looking_into_is_being_searched(file, query);
        text::split_is_never_empty(text::utf8_lossy(file.data), '\n');
        if looked_into(file, query) {
            let here = places_in_a_file(
                files,
                query,
                n - 1,
                workspace::line_count(pieces(file)),
            );
            let all = rest + here;
            let found = workspace::all_matches(files, query, n);
            let more = workspace::file_matches(file, query.pattern@);
            assert(found == before + more);
            assert forall|i: int| 0 <= i < all.len() implies is_hit(files, query, #[trigger] all[i])
                && all[i].0 < n && shows(files, all[i], found[i]) by {
                if i < rest.len() {
                    assert(all[i] == rest[i]);
                    assert(found[i] == before[i]);
                } else {
                    assert(all[i] == here[i - rest.len()]);
                    assert(found[i] == more[i - rest.len()]);
                }
            }
            assert forall|i: int, j: int| 0 <= i < j < all.len() implies earlier(
                #[trigger] all[i],
                #[trigger] all[j],
            ) by {
                if j < rest.len() {
                    assert(all[i] == rest[i] && all[j] == rest[j]);
                } else if i < rest.len() {
                    assert(all[i] == rest[i] && all[j] == here[j - rest.len()]);
                } else {
                    assert(all[i] == here[i - rest.len()] && all[j] == here[j - rest.len()]);
                }
            }
            assert forall|place: (int, int)| #[trigger]
                is_hit(files, query, place) && place.0 < n implies all.contains(place) by {
                if place.0 < n - 1 {
                    assert(rest.contains(place));
                    let k = choose|k: int| 0 <= k < rest.len() && rest[k] == place;
                    assert(all[k] == place);
                } else {
                    assert(place.1 < workspace::line_count(pieces(file)));
                    assert(here.contains(place));
                    let k = choose|k: int| 0 <= k < here.len() && here[k] == place;
                    assert(all[rest.len() + k] == place);
                }
            }
            all
        } else {
            assert forall|place: (int, int)| #[trigger]
                is_hit(files, query, place) && place.0 < n implies rest.contains(place) by {
                assert(place.0 < n - 1);
            }
            rest
        }
    }
}

/// A search finds every line that it is asked about and no other: without a
/// cap there is a match for each line that holds the pattern, of each file that
/// is looked into, in the order of the files and of their lines, and it shows
/// that line.
pub proof fn a_search_finds_every_line_that_holds_the_pattern(
    of: &FakeWorkspace,
    query: &SearchQuery,
    r: Result<SearchResult, WorkspaceError>,
)
    requires
        call_ensures(FakeWorkspace::search, (of, query), r),
        query.max_results is None,
    ensures
        r is Ok,
        exists|places: Seq<(int, int)>| #[trigger]
            found_at(
                of.files(),
                *query,
                places,
                as_shown(r->Ok_0.matches@),
                of.files().len() as int,
            ),
{
    let places = places_in_files(of.files(), *query, of.files().len() as int);
    matches_are_as_shown(r->Ok_0.matches@);
}

/// What the matches of a result show: of each its path, its line and the
/// beginning of it.
pub open spec fn as_shown(matches: Seq<SearchMatch>) -> Seq<MatchView> {
    matches.map_values(
        |found: SearchMatch|
            MatchView { path: found.path@, line: found.line as int, preview: found.preview@ },
    )
}

proof fn matches_are_as_shown(matches: Seq<SearchMatch>)
    ensures
        workspace::match_views(matches) == as_shown(matches),
{
    assert(workspace::match_views(matches) =~= as_shown(matches));
}

/// A cap cuts the matches of a search off behind that many, and changes
/// nothing else.
pub proof fn a_cap_cuts_a_search_off(
    of: &FakeWorkspace,
    query: &SearchQuery,
    r: Result<SearchResult, WorkspaceError>,
    open: &SearchQuery,
    all: Result<SearchResult, WorkspaceError>,
)
    requires
        call_ensures(FakeWorkspace::search, (of, query), r),
        query.max_results is Some,
        open.pattern == query.pattern,
        open.path_prefix == query.path_prefix,
        open.max_results is None,
        call_ensures(FakeWorkspace::search, (of, open), all),
    ensures
        r is Ok && all is Ok,
        ({
            let cut = as_shown(r->Ok_0.matches@);
            let whole = as_shown(all->Ok_0.matches@);
            let max = query.max_results->0;
            &&& cut.len() == if whole.len() < max { whole.len() as int } else { max as int }
            &&& cut == whole.take(cut.len() as int)
        }),
{
    same_query_same_matches(of.files(), *query, *open, of.files().len() as int);
    matches_are_as_shown(r->Ok_0.matches@);
    matches_are_as_shown(all->Ok_0.matches@);
    let whole = workspace::match_views(all->Ok_0.matches@);
    assert(whole.take(whole.len() as int) =~= whole);
}

proof fn same_query_same_matches(files: Seq<FileView>, a: SearchQuery, b: SearchQuery, n: int)
    requires
        a.pattern == b.pattern,
        a.path_prefix == b.path_prefix,
    ensures
        workspace::all_matches(files, a, n) == workspace::all_matches(files, b, n),
    decreases n,
{
    if n > 0 {
        same_query_same_matches(files, a, b, n - 1);
    }
}

} // verus!
