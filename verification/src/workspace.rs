//! A workspace in memory.

use vstd::prelude::*;

use crate::paths::{self, is_below, paths_equal};
use crate::text::{self, clone_opt, contains, from_utf8_lossy, split_on, take_prefix};
use crate::traits::{
    SearchMatch, SearchQuery, SearchResult, Workspace, WorkspaceError, WorkspaceStatus,
};

verus! {

/// How many characters of a matching line a search shows.
pub const PREVIEW_CHARS: usize = 200;

/// A file of the workspace.
#[derive(Debug)]
pub struct FileEntry {
    pub path: String,
    pub data: Vec<u8>,
}

/// A file as text and bytes.
pub struct FileView {
    pub path: Seq<char>,
    pub data: Seq<u8>,
}

/// A workspace that holds its files in memory.
#[derive(Debug)]
pub struct FakeWorkspace {
    files: Vec<FileEntry>,
    root: Option<String>,
    writable: bool,
}

/// Whether `files[i]` is the file at `path`.
pub open spec fn file_at(files: Seq<FileView>, path: Seq<char>, i: int) -> bool {
    0 <= i < files.len() && paths::same_path(files[i].path, path)
}

/// Whether there is a file at `path`.
pub open spec fn has_file(files: Seq<FileView>, path: Seq<char>) -> bool {
    exists|i: int| file_at(files, path, i)
}

/// Whether no two files are at the same path.
pub open spec fn distinct_paths(files: Seq<FileView>) -> bool {
    forall|i: int, j: int|
        0 <= i < j < files.len() ==> !paths::same_path(
            (#[trigger] files[i]).path,
            (#[trigger] files[j]).path,
        )
}

/// Whether `after` is `before` with `data` written at `path`: into the file
/// that is there, which keeps its name, or into a new one.
pub open spec fn written(
    before: Seq<FileView>,
    after: Seq<FileView>,
    path: Seq<char>,
    data: Seq<u8>,
) -> bool {
    &&& forall|i: int| #[trigger]
        file_at(before, path, i) ==> after == before.update(
            i,
            FileView { path: before[i].path, data },
        )
    &&& !has_file(before, path) ==> after == before.push(FileView { path, data })
}

// ---------------------------------------------------------------------------
// Searching
// ---------------------------------------------------------------------------

/// A line without the carriage return that ended it.
pub open spec fn without_return(line: Seq<char>) -> Seq<char> {
    if line.len() > 0 && line.last() == '\r' {
        line.drop_last()
    } else {
        line
    }
}

/// The number of lines of a split text: an empty last part is no line.
pub open spec fn line_count(parts: Seq<Seq<char>>) -> int {
    if parts.last().len() == 0 {
        parts.len() - 1
    } else {
        parts.len() as int
    }
}

/// Line `i` of a split text. Only a line that a line feed ended loses a
/// carriage return.
pub open spec fn line_at(parts: Seq<Seq<char>>, i: int) -> Seq<char> {
    if i < parts.len() - 1 {
        without_return(parts[i])
    } else {
        parts[i]
    }
}

/// A match as text.
pub struct MatchView {
    pub path: Seq<char>,
    pub line: int,
    pub preview: Seq<char>,
}

/// The matches among the first `n` lines of a file.
pub open spec fn matches_in(
    path: Seq<char>,
    parts: Seq<Seq<char>>,
    pattern: Seq<char>,
    n: int,
) -> Seq<MatchView>
    decreases n,
{
    if n <= 0 {
        Seq::empty()
    } else {
        let rest = matches_in(path, parts, pattern, n - 1);
        let line = line_at(parts, n - 1);
        if text::occurs(line, pattern) {
            rest.push(MatchView { path, line: n, preview: text::prefix(line, 200) })
        } else {
            rest
        }
    }
}

/// The matches in one file.
pub open spec fn file_matches(file: FileView, pattern: Seq<char>) -> Seq<MatchView> {
    let parts = text::split(text::utf8_lossy(file.data), '\n');
    matches_in(file.path, parts, pattern, line_count(parts))
}

/// Whether a file is searched at all.
pub open spec fn searched(file: FileView, path_prefix: Option<String>) -> bool {
    path_prefix matches Some(base) ==> paths::lies_below(file.path, base@)
}

/// The matches in the first `n` files.
pub open spec fn all_matches(files: Seq<FileView>, query: SearchQuery, n: int) -> Seq<MatchView>
    decreases n,
{
    if n <= 0 {
        Seq::empty()
    } else {
        let rest = all_matches(files, query, n - 1);
        if searched(files[n - 1], query.path_prefix) {
            rest + file_matches(files[n - 1], query.pattern@)
        } else {
            rest
        }
    }
}

/// The matches that a search gives: all of them, or the first ones where it is
/// capped at fewer.
pub open spec fn capped(matches: Seq<MatchView>, max_results: Option<usize>) -> Seq<MatchView> {
    match max_results {
        Some(max) if max < matches.len() => matches.take(max as int),
        _ => matches,
    }
}

/// The matches of a result as text.
pub open spec fn match_views(matches: Seq<SearchMatch>) -> Seq<MatchView> {
    Seq::new(
        matches.len(),
        |i: int|
            MatchView {
                path: matches[i].path@,
                line: matches[i].line as int,
                preview: matches[i].preview@,
            },
    )
}

/// Whether a search has collected as many matches as it is capped at.
pub open spec fn is_full(count: nat, max_results: Option<usize>) -> bool {
    max_results matches Some(max) && count >= max
}

/// What is collected once a search is full is what the cap leaves of any
/// list that continues it.
proof fn full_is_capped(
    collected: Seq<MatchView>,
    all: Seq<MatchView>,
    max_results: Option<usize>,
)
    requires
        is_full(collected.len(), max_results),
        collected.len() == 0 || !is_full((collected.len() - 1) as nat, max_results),
        collected.len() <= all.len(),
        all.take(collected.len() as int) == collected,
    ensures
        capped(all, max_results) == collected,
{
    if all.len() <= collected.len() {
        assert(all =~= collected);
    }
}

/// A list that never got full is not capped.
proof fn not_full_is_not_capped(all: Seq<MatchView>, max_results: Option<usize>)
    requires
        !is_full(all.len(), max_results),
    ensures
        capped(all, max_results) == all,
{
}

proof fn matches_extend(
    path: Seq<char>,
    parts: Seq<Seq<char>>,
    pattern: Seq<char>,
    k: int,
    n: int,
)
    requires
        0 <= k <= n,
    ensures
        matches_in(path, parts, pattern, k).len() <= matches_in(path, parts, pattern, n).len(),
        matches_in(path, parts, pattern, n).take(
            matches_in(path, parts, pattern, k).len() as int,
        ) == matches_in(path, parts, pattern, k),
    decreases n - k,
{
    let short = matches_in(path, parts, pattern, k);
    if k == n {
        assert(short.take(short.len() as int) =~= short);
    } else {
        matches_extend(path, parts, pattern, k, n - 1);
        let mid = matches_in(path, parts, pattern, n - 1);
        let long = matches_in(path, parts, pattern, n);
        assert(long.take(short.len() as int) =~= mid.take(short.len() as int));
    }
}

proof fn all_matches_extend(files: Seq<FileView>, query: SearchQuery, k: int, n: int)
    requires
        0 <= k <= n,
    ensures
        all_matches(files, query, k).len() <= all_matches(files, query, n).len(),
        all_matches(files, query, n).take(all_matches(files, query, k).len() as int)
            == all_matches(files, query, k),
    decreases n - k,
{
    let short = all_matches(files, query, k);
    if k == n {
        assert(short.take(short.len() as int) =~= short);
    } else {
        all_matches_extend(files, query, k, n - 1);
        let mid = all_matches(files, query, n - 1);
        let long = all_matches(files, query, n);
        assert(long.take(short.len() as int) =~= mid.take(short.len() as int));
    }
}

/// A line of a split text.
fn read_line(parts: &Vec<String>, i: usize) -> (r: String)
    requires
        i < parts@.len(),
    ensures
        r@ == line_at(text::texts(parts@), i as int),
{
    let part = parts[i].as_str();
    if i < parts.len() - 1 {
        let chars = text::to_chars(part);
        if chars.len() > 0 && chars[chars.len() - 1] == '\r' {
            let r = text::from_chars(
                vstd::slice::slice_subrange(chars.as_slice(), 0, chars.len() - 1),
            );
            assert(r@ =~= part@.drop_last());
            return r;
        }
    }
    part.to_owned()
}

/// Tells whether enough matches are collected.
fn enough(count: usize, max_results: Option<usize>) -> (r: bool)
    ensures
        r == is_full(count as nat, max_results),
{
    match max_results {
        Some(max) => count >= max,
        None => false,
    }
}

impl FakeWorkspace {
    /// The files, oldest first.
    pub closed spec fn files(&self) -> Seq<FileView> {
        Seq::new(
            self.files@.len(),
            |i: int| FileView { path: self.files@[i].path@, data: self.files@[i].data@ },
        )
    }

    /// The workspace root.
    pub closed spec fn root(&self) -> Option<String> {
        self.root
    }

    /// Whether writes are permitted.
    pub closed spec fn writable(&self) -> bool {
        self.writable
    }

    /// No two files are at the same path.
    pub open spec fn wf(&self) -> bool {
        distinct_paths(self.files())
    }

    /// An empty, writable workspace without a root.
    pub fn new() -> (r: Self)
        ensures
            r.wf(),
            r.files() == Seq::<FileView>::empty(),
            r.root() is None,
            r.writable(),
    {
        let r = FakeWorkspace { files: Vec::new(), root: None, writable: true };
        assert(r.files() =~= Seq::<FileView>::empty());
        r
    }

    /// Sets the root that the status reports.
    pub fn with_root(self, root: String) -> (r: Self)
        ensures
            r.root() == Some(root),
            r.files() == self.files(),
            r.writable() == self.writable(),
            self.wf() ==> r.wf(),
    {
        let mut r = self;
        r.root = Some(root);
        assert(r.files() =~= self.files());
        r
    }

    /// Seeds the workspace with a file, whether writes are permitted or not.
    pub fn with_file(self, path: String, data: Vec<u8>) -> (r: Self)
        requires
            self.wf(),
        ensures
            r.wf(),
            written(self.files(), r.files(), path@, data@),
            r.root() == self.root(),
            r.writable() == self.writable(),
    {
        let mut r = self;
        r.put(path.as_str(), data);
        r
    }

    /// Forbids writes.
    pub fn read_only(self) -> (r: Self)
        ensures
            !r.writable(),
            r.files() == self.files(),
            r.root() == self.root(),
            self.wf() ==> r.wf(),
    {
        let mut r = self;
        r.writable = false;
        assert(r.files() =~= self.files());
        r
    }

    /// Finds the file at a path.
    fn find(&self, path: &str) -> (r: Option<usize>)
        requires
            self.wf(),
        ensures
            match r {
                Some(i) => file_at(self.files(), path@, i as int) && forall|k: int| #[trigger]
                    file_at(self.files(), path@, k) ==> k == i,
                None => !has_file(self.files(), path@),
            },
    {
        let mut i: usize = 0;
        while i < self.files.len()
            invariant
                self.wf(),
                i <= self.files@.len(),
                forall|j: int| 0 <= j < i ==> !(#[trigger] file_at(self.files(), path@, j)),
            decreases self.files@.len() - i,
        {
            if paths_equal(self.files[i].path.as_str(), path) {
                proof {
                    assert(file_at(self.files(), path@, i as int));
                    assert forall|k: int| #[trigger] file_at(self.files(), path@, k) implies k
                        == i by {
                        if k < i {
                            assert(!file_at(self.files(), path@, k));
                        } else if i < k {
                            assert(paths::same_path(
                                self.files()[i as int].path,
                                self.files()[k].path,
                            ));
                        }
                    }
                }
                return Some(i);
            }
            assert(!file_at(self.files(), path@, i as int));
            i = i + 1;
        }
        proof {
            assert forall|k: int| !(#[trigger] file_at(self.files(), path@, k)) by {}
        }
        None
    }

    /// Writes a file.
    fn put(&mut self, path: &str, data: Vec<u8>)
        requires
            old(self).wf(),
        ensures
            final(self).wf(),
            written(old(self).files(), final(self).files(), path@, data@),
            final(self).root() == old(self).root(),
            final(self).writable() == old(self).writable(),
    {
        let ghost before = self.files();
        match self.find(path) {
            Some(i) => {
                let name = self.files[i].path.clone();
                let ghost view = FileView { path: name@, data: data@ };
                self.files.set(i, FileEntry { path: name, data });
                proof {
                    assert(self.files() =~= before.update(i as int, view));
                    assert forall|a: int, b: int|
                        0 <= a < b < self.files().len() implies !paths::same_path(
                        (#[trigger] self.files()[a]).path,
                        (#[trigger] self.files()[b]).path,
                    ) by {
                        assert(self.files()[a].path == before[a].path);
                        assert(self.files()[b].path == before[b].path);
                    }
                }
            },
            None => {
                let ghost view = FileView { path: path@, data: data@ };
                self.files.push(FileEntry { path: path.to_owned(), data });
                proof {
                    assert(self.files() =~= before.push(view));
                    assert forall|a: int, b: int|
                        0 <= a < b < self.files().len() implies !paths::same_path(
                        (#[trigger] self.files()[a]).path,
                        (#[trigger] self.files()[b]).path,
                    ) by {
                        assert(self.files()[a] == before[a]);
                        if b < before.len() {
                            assert(self.files()[b] == before[b]);
                        } else {
                            assert(!file_at(before, path@, a));
                        }
                    }
                    assert forall|i: int| !(#[trigger] file_at(before, path@, i)) by {}
                }
            },
        }
    }

    /// Collects the matches in one file; `true` tells that the search is full.
    fn search_file(
        &self,
        index: usize,
        query: &SearchQuery,
        found: &mut Vec<SearchMatch>,
    ) -> (full: bool)
        requires
            index < self.files().len(),
            !is_full(old(found)@.len(), query.max_results),
        ensures
            ({
                let all = match_views(old(found)@) + file_matches(
                    self.files()[index as int],
                    query.pattern@,
                );
                let now = match_views(final(found)@);
                if full {
                    &&& is_full(now.len(), query.max_results)
                    &&& now.len() > 0
                    &&& !is_full((now.len() - 1) as nat, query.max_results)
                    &&& now.len() <= all.len()
                    &&& all.take(now.len() as int) == now
                } else {
                    now == all && !is_full(now.len(), query.max_results)
                }
            }),
    {
        let file = &self.files[index];
        let content = from_utf8_lossy(&file.data);
        let parts = split_on(content.as_str(), '\n');
        let ghost split = text::texts(parts@);
        let ghost start = match_views(found@);
        proof {
            text::split_is_never_empty(content@, '\n');
            assert(split.len() == parts@.len());
            assert(start + matches_in(file.path@, split, query.pattern@, 0) =~= start);
        }
        let last: usize = parts.len() - 1;
        let lines: usize = if parts[last].as_str().is_empty() {
            last
        } else {
            parts.len()
        };
        assert(lines == line_count(split));
        let mut i: usize = 0;
        while i < lines
            invariant
                index < self.files().len(),
                file == self.files@[index as int],
                split == text::texts(parts@),
                split == text::split(text::utf8_lossy(file.data@), '\n'),
                lines == line_count(split),
                lines <= parts@.len(),
                i <= lines,
                match_views(found@) == start + matches_in(
                    file.path@,
                    split,
                    query.pattern@,
                    i as int,
                ),
                !is_full(found@.len(), query.max_results),
                start == match_views(old(found)@),
            decreases lines - i,
        {
            let line = read_line(&parts, i);
            let ghost before = match_views(found@);
            if contains(line.as_str(), query.pattern.as_str()) {
                let number: u64 = i as u64 + 1;
                found.push(
                    SearchMatch {
                        path: file.path.clone(),
                        line: number,
                        preview: take_prefix(line.as_str(), PREVIEW_CHARS),
                    },
                );
                proof {
                    let view = MatchView {
                        path: file.path@,
                        line: i + 1,
                        preview: text::prefix(line@, 200),
                    };
                    assert(match_views(found@) =~= before.push(view));
                    assert(before.push(view) =~= start + matches_in(
                        file.path@,
                        split,
                        query.pattern@,
                        i + 1,
                    ));
                }
                if enough(found.len(), query.max_results) {
                    proof {
                        matches_extend(
                            file.path@,
                            split,
                            query.pattern@,
                            i + 1,
                            lines as int,
                        );
                        let now = match_views(found@);
                        let part = matches_in(file.path@, split, query.pattern@, i + 1);
                        let whole = matches_in(file.path@, split, query.pattern@, lines as int);
                        assert((start + whole).take(now.len() as int) =~= start + whole.take(
                            part.len() as int,
                        ));
                    }
                    return true;
                }
            }
            i = i + 1;
        }
        false
    }
}

impl Workspace for FakeWorkspace {
    open spec fn valid(&self) -> bool {
        self.wf()
    }

    /// Reads a file; an error where there is none.
    fn read(&self, path: &str) -> (r: Result<Vec<u8>, WorkspaceError>)
        ensures
            forall|i: int| #[trigger]
                file_at(self.files(), path@, i) ==> (r matches Ok(data) && data@
                    == self.files()[i].data),
            !has_file(self.files(), path@) ==> (r matches Err(WorkspaceError::NotFound(text))
                && text@ == path@),
    {
        match self.find(path) {
            Some(i) => {
                let data = self.files[i].data.clone();
                assert(data@ =~= self.files@[i as int].data@);
                Ok(data)
            },
            None => Err(WorkspaceError::NotFound(path.to_owned())),
        }
    }

    /// Writes a file; an error where writes are forbidden.
    fn write(&mut self, path: &str, data: Vec<u8>) -> (r: Result<(), WorkspaceError>)
        ensures
            if old(self).writable() {
                &&& r == Ok::<(), WorkspaceError>(())
                &&& written(old(self).files(), final(self).files(), path@, data@)
                &&& final(self).root() == old(self).root()
                &&& final(self).writable()
            } else {
                &&& r matches Err(WorkspaceError::PermissionDenied(text)) && text@ == path@
                &&& *final(self) == *old(self)
            },
    {
        if !self.writable {
            return Err(WorkspaceError::PermissionDenied(path.to_owned()));
        }
        self.put(path, data);
        Ok(())
    }

    /// Searches the files line by line.
    fn search(&self, query: &SearchQuery) -> (r: Result<SearchResult, WorkspaceError>)
        ensures
            r matches Ok(result) && match_views(result.matches@) == capped(
                all_matches(self.files(), *query, self.files().len() as int),
                query.max_results,
            ),
    {
        let mut found: Vec<SearchMatch> = Vec::new();
        let mut i: usize = 0;
        let ghost files = self.files();
        assert(match_views(found@) =~= all_matches(files, *query, 0));
        if enough(found.len(), query.max_results) {
            proof {
                let all = all_matches(files, *query, files.len() as int);
                assert(all.take(0) =~= match_views(found@));
                full_is_capped(match_views(found@), all, query.max_results);
            }
            return Ok(SearchResult { matches: found });
        }
        while i < self.files.len()
            invariant
                files == self.files(),
                i <= files.len(),
                match_views(found@) == all_matches(files, *query, i as int),
                !is_full(found@.len(), query.max_results),
            decreases files.len() - i,
        {
            let below = match &query.path_prefix {
                Some(base) => is_below(self.files[i].path.as_str(), base.as_str()),
                None => true,
            };
            if below {
                let ghost before = match_views(found@);
                let full = self.search_file(i, query, &mut found);
                if full {
                    proof {
                        let now = match_views(found@);
                        let upto = all_matches(files, *query, i + 1);
                        let all = all_matches(files, *query, files.len() as int);
                        all_matches_extend(files, *query, i + 1, files.len() as int);
                        assert(all.take(now.len() as int) =~= upto.take(now.len() as int));
                        full_is_capped(now, all, query.max_results);
                    }
                    return Ok(SearchResult { matches: found });
                }
            }
            i = i + 1;
        }
        proof {
            not_full_is_not_capped(match_views(found@), query.max_results);
        }
        Ok(SearchResult { matches: found })
    }

    /// Reports root, number of files and whether writes are permitted.
    fn status(&self) -> (r: Result<WorkspaceStatus, WorkspaceError>)
        ensures
            r matches Ok(status) && status.root == self.root() && status.file_count
                == self.files().len() && status.is_writable == self.writable(),
    {
        Ok(
            WorkspaceStatus {
                root: clone_opt(&self.root),
                file_count: self.files.len(),
                is_writable: self.writable,
            },
        )
    }
}

impl Default for FakeWorkspace {
    /// An empty workspace without a root that forbids writes.
    fn default() -> (r: Self)
        ensures
            r.wf(),
            r.files() == Seq::<FileView>::empty(),
            r.root() is None,
            !r.writable(),
    {
        FakeWorkspace::new().read_only()
    }
}

/// A search gives at most as many matches as it is capped at, and leaves out
/// none before it has that many.
pub proof fn a_search_keeps_to_its_cap(matches: Seq<MatchView>, max: usize)
    ensures
        capped(matches, Some(max)).len() == if max < matches.len() {
            max as int
        } else {
            matches.len() as int
        },
        forall|i: int|
            0 <= i < capped(matches, Some(max)).len() ==> #[trigger] capped(matches, Some(max))[i]
                == matches[i],
        capped(matches, None) == matches,
{
}

/// What was written at a path is what is read there, by whichever name of
/// the path.
pub proof fn a_read_gives_back_what_was_written(
    before: Seq<FileView>,
    after: Seq<FileView>,
    path: Seq<char>,
    other: Seq<char>,
    data: Seq<u8>,
)
    requires
        distinct_paths(before),
        written(before, after, path, data),
        paths::same_path(path, other),
    ensures
        exists|i: int| #[trigger] file_at(after, other, i) && after[i].data == data,
{
    if has_file(before, path) {
        let i = choose|i: int| file_at(before, path, i);
        assert(file_at(after, other, i));
    } else {
        assert(file_at(after, other, before.len() as int));
    }
}

/// Writing at a path leaves the files at every other path alone.
pub proof fn a_write_leaves_other_files_alone(
    before: Seq<FileView>,
    after: Seq<FileView>,
    path: Seq<char>,
    other: Seq<char>,
    data: Seq<u8>,
    i: int,
)
    requires
        distinct_paths(before),
        written(before, after, path, data),
        !paths::same_path(path, other),
    ensures
        file_at(before, other, i) ==> file_at(after, other, i) && after[i] == before[i],
        file_at(after, other, i) ==> file_at(before, other, i),
{
    if has_file(before, path) {
        let k = choose|k: int| file_at(before, path, k);
        assert(file_at(before, path, k));
    }
}

} // verus!
