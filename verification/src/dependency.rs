//! Dependencies: the external resources that documents refer to, under
//! their qualified paths.
//!
//! The table only grows. Scanning adds an empty slot for each path that is
//! new and leaves every slot that is already there, loaded or not, as it is.

use vstd::prelude::*;
use crate::node::LiveNode;
use crate::registry::LiveFile;
use crate::value::LiveValue;

verus! {

/// The slot of one dependency: what a loader has put there, if anything.
#[derive(Clone, Debug, PartialEq, Eq)]
pub struct CxDependency {
    pub data: Option<Vec<u8>>,
}

/// A qualified path and its slot.
#[derive(Clone, Debug, PartialEq, Eq)]
pub struct CxDependencyEntry {
    pub path: String,
    pub dependency: CxDependency,
}

/// The dependency table, in the order in which paths were first seen.
#[derive(Clone, Debug, PartialEq, Eq)]
pub struct CxDependencies {
    pub entries: Vec<CxDependencyEntry>,
}

/// A table entry as contracts speak of it.
pub struct DependencyView {
    pub path: Seq<char>,
    pub data: Option<Seq<u8>>,
}

impl View for CxDependencyEntry {
    type V = DependencyView;

    open spec fn view(&self) -> DependencyView {
        DependencyView {
            path: self.path@,
            data: match self.dependency.data {
                Some(bytes) => Some(bytes@),
                None => None,
            },
        }
    }
}

impl View for CxDependencies {
    type V = Seq<DependencyView>;

    open spec fn view(&self) -> Seq<DependencyView> {
        self.entries@.map_values(|e: CxDependencyEntry| e@)
    }
}

/// The scheme that marks a path as relative to the declaring file's base.
pub open spec fn crate_scheme() -> Seq<char> {
    seq!['c', 'r', 'a', 't', 'e', ':', '/', '/']
}

/// Whether a path as written starts with the scheme.
pub open spec fn has_crate_scheme(path: Seq<char>) -> bool {
    path.len() >= 8 && path.subrange(0, 8) == crate_scheme()
}

/// The path as written, set on the base: a path with the scheme loses the
/// scheme and gets the base and a slash in front, or nothing where the base
/// is empty; any other path stays as written.
pub open spec fn join_base(base: Seq<char>, path: Seq<char>) -> Seq<char> {
    if has_crate_scheme(path) {
        if base.len() == 0 {
            path.skip(8)
        } else {
            base + seq!['/'] + path.skip(8)
        }
    } else {
        path
    }
}

/// The segments of a path: what lies between its slashes. A path always
/// has at least one segment; an empty path has one empty segment.
pub open spec fn split_path(s: Seq<char>) -> Seq<Seq<char>>
    decreases s.len(),
{
    if s.len() == 0 {
        seq![Seq::<char>::empty()]
    } else {
        let head = split_path(s.drop_last());
        if s.last() == '/' {
            head.push(Seq::<char>::empty())
        } else {
            head.drop_last().push(head.last().push(s.last()))
        }
    }
}

/// The segment `.`, which stands for the directory itself.
pub open spec fn is_dot(segment: Seq<char>) -> bool {
    segment == seq!['.']
}

/// The segment `..`, which stands for the parent directory.
pub open spec fn is_dot_dot(segment: Seq<char>) -> bool {
    segment == seq!['.', '.']
}

/// One more segment after the collapsed segments so far: `.` is dropped,
/// `..` takes away the named segment before it, and any other segment is
/// kept. A `..` with no named segment before it is kept too.
pub open spec fn collapse_step(stack: Seq<Seq<char>>, segment: Seq<char>) -> Seq<Seq<char>> {
    if is_dot(segment) {
        stack
    } else if is_dot_dot(segment) && stack.len() > 0 && stack.last().len() > 0 && !is_dot_dot(
        stack.last(),
    ) {
        stack.drop_last()
    } else {
        stack.push(segment)
    }
}

/// The segments with every relative segment collapsed, from left to right.
pub open spec fn collapse_segments(segments: Seq<Seq<char>>) -> Seq<Seq<char>>
    decreases segments.len(),
{
    if segments.len() == 0 {
        Seq::<Seq<char>>::empty()
    } else {
        collapse_step(collapse_segments(segments.drop_last()), segments.last())
    }
}

/// The first `n` segments, with a slash between each two.
pub open spec fn join_path(segments: Seq<Seq<char>>, n: int) -> Seq<char>
    decreases n,
{
    if n <= 0 {
        Seq::<char>::empty()
    } else if n == 1 {
        segments[0]
    } else {
        join_path(segments, n - 1) + seq!['/'] + segments[n - 1]
    }
}

/// The canonical path of a dependency: the path as written, set on the base
/// of the declaring file, with relative segments collapsed.
pub open spec fn qualify(base: Seq<char>, path: Seq<char>) -> Seq<char> {
    let segments = collapse_segments(split_path(join_base(base, path)));
    join_path(segments, segments.len() as int)
}

/// The characters of a list of segments.
pub open spec fn segments_view(segments: Seq<Vec<char>>) -> Seq<Seq<char>> {
    segments.map_values(|s: Vec<char>| s@)
}

/// The characters of a string, one by one.
pub fn chars_of(s: &str) -> (chars: Vec<char>)
    ensures
        chars@ == s@,
{
    let mut chars: Vec<char> = Vec::new();
    for c in it: s.chars()
        invariant
            it.seq() == s@,
            chars@ == it.seq().take(it.index() as int),
    {
        chars.push(c);
        assert(chars@ =~= it.seq().take(it.index() + 1));
    }
    assert(chars@ =~= s@);
    chars
}

/// Whether the characters start with the scheme.
fn starts_with_crate_scheme(path: &Vec<char>) -> (yes: bool)
    ensures
        yes == has_crate_scheme(path@),
{
    if path.len() < 8 {
        return false;
    }
    let yes = path[0] == 'c' && path[1] == 'r' && path[2] == 'a' && path[3] == 't' && path[4]
        == 'e' && path[5] == ':' && path[6] == '/' && path[7] == '/';
    proof {
        if yes {
            assert(path@.subrange(0, 8) =~= crate_scheme());
        } else {
            assert(path@.subrange(0, 8)[0] == path@[0]);
            assert(path@.subrange(0, 8)[1] == path@[1]);
            assert(path@.subrange(0, 8)[2] == path@[2]);
            assert(path@.subrange(0, 8)[3] == path@[3]);
            assert(path@.subrange(0, 8)[4] == path@[4]);
            assert(path@.subrange(0, 8)[5] == path@[5]);
            assert(path@.subrange(0, 8)[6] == path@[6]);
            assert(path@.subrange(0, 8)[7] == path@[7]);
        }
    }
    yes
}

/// Appends the characters of `source` from index `from` on.
fn extend_from(target: &mut Vec<char>, source: &Vec<char>, from: usize)
    requires
        from <= source@.len(),
    ensures
        final(target)@ == old(target)@ + source@.skip(from as int),
{
    let mut i: usize = from;
    while i < source.len()
        invariant
            from <= i <= source.len(),
            target@ == old(target)@ + source@.subrange(from as int, i as int),
        decreases source.len() - i,
    {
        target.push(source[i]);
        assert(target@ =~= old(target)@ + source@.subrange(from as int, i + 1));
        i += 1;
    }
    assert(source@.subrange(from as int, source@.len() as int) =~= source@.skip(from as int));
}

/// The path as written, set on the base.
fn join_base_chars(base: &str, path: &str) -> (joined: Vec<char>)
    ensures
        joined@ == join_base(base@, path@),
{
    let written = chars_of(path);
    if starts_with_crate_scheme(&written) {
        let mut joined = chars_of(base);
        if joined.len() > 0 {
            joined.push('/');
        }
        extend_from(&mut joined, &written, 8);
        assert(joined@ =~= join_base(base@, path@));
        joined
    } else {
        written
    }
}

/// Puts one more segment after the collapsed segments so far.
fn collapse_push(stack: &mut Vec<Vec<char>>, segment: Vec<char>)
    ensures
        segments_view(final(stack)@) == collapse_step(segments_view(old(stack)@), segment@),
{
    let dot = segment.len() == 1 && segment[0] == '.';
    let dot_dot = segment.len() == 2 && segment[0] == '.' && segment[1] == '.';
    proof {
        if dot {
            assert(segment@ =~= seq!['.']);
        }
        if dot_dot {
            assert(segment@ =~= seq!['.', '.']);
        }
        assert(!dot ==> !is_dot(segment@));
        assert(!dot_dot ==> !is_dot_dot(segment@));
    }
    if dot {
        return ;
    }
    if dot_dot && stack.len() > 0 {
        let last = &stack[stack.len() - 1];
        let last_dot_dot = last.len() == 2 && last[0] == '.' && last[1] == '.';
        proof {
            if last_dot_dot {
                assert(last@ =~= seq!['.', '.']);
            }
            assert(segments_view(stack@).last() == last@);
        }
        if last.len() > 0 && !last_dot_dot {
            stack.pop();
            assert(segments_view(stack@) =~= segments_view(old(stack)@).drop_last());
            return ;
        }
    }
    stack.push(segment);
    assert(segments_view(stack@) =~= segments_view(old(stack)@).push(segment@));
}

/// A path always has at least one segment.
pub proof fn lemma_split_path_nonempty(s: Seq<char>)
    ensures
        split_path(s).len() >= 1,
    decreases s.len(),
{
    if s.len() > 0 {
        lemma_split_path_nonempty(s.drop_last());
    }
}

/// The canonical path of a dependency that a file with base `base` writes
/// as `path`.
pub fn qualify_path(base: &str, path: &str) -> (qualified: String)
    ensures
        qualified@ == qualify(base@, path@),
{
    let joined = join_base_chars(base, path);
    let mut stack: Vec<Vec<char>> = Vec::new();
    let mut current: Vec<char> = Vec::new();
    let mut i: usize = 0;
    assert(joined@.take(0) =~= Seq::<char>::empty());
    assert(segments_view(stack@) =~= collapse_segments(split_path(joined@.take(0)).drop_last()));
    while i < joined.len()
        invariant
            i <= joined.len(),
            segments_view(stack@) == collapse_segments(
                split_path(joined@.take(i as int)).drop_last(),
            ),
            current@ == split_path(joined@.take(i as int)).last(),
        decreases joined.len() - i,
    {
        let c = joined[i];
        proof {
            let before = joined@.take(i as int);
            let after = joined@.take(i + 1);
            assert(after.drop_last() =~= before);
            assert(after.last() == c);
            lemma_split_path_nonempty(before);
            if c == '/' {
                assert(split_path(after).drop_last() =~= split_path(before));
                assert(split_path(before).drop_last().push(split_path(before).last())
                    =~= split_path(before));
            } else {
                assert(split_path(after).drop_last() =~= split_path(before).drop_last());
            }
        }
        if c == '/' {
            collapse_push(&mut stack, current);
            current = Vec::new();
        } else {
            current.push(c);
        }
        i += 1;
    }
    proof {
        assert(joined@.take(joined@.len() as int) =~= joined@);
        lemma_split_path_nonempty(joined@);
        assert(split_path(joined@).drop_last().push(split_path(joined@).last()) =~= split_path(
            joined@,
        ));
    }
    collapse_push(&mut stack, current);
    let ghost segments = segments_view(stack@);
    assert(segments == collapse_segments(split_path(joined@)));
    let mut qualified = String::new();
    let mut k: usize = 0;
    while k < stack.len()
        invariant
            k <= stack.len(),
            segments == segments_view(stack@),
            qualified@ == join_path(segments, k as int),
        decreases stack.len() - k,
    {
        if k > 0 {
            qualified.push('/');
        }
        let segment = &stack[k];
        let ghost start = qualified@;
        let mut m: usize = 0;
        while m < segment.len()
            invariant
                m <= segment.len(),
                qualified@ == start + segment@.take(m as int),
            decreases segment.len() - m,
        {
            qualified.push(segment[m]);
            assert(qualified@ =~= start + segment@.take(m + 1));
            m += 1;
        }
        proof {
            assert(segment@.take(segment@.len() as int) =~= segment@);
            assert(segments[k as int] == segment@);
            if k > 0 {
                assert(start =~= join_path(segments, k as int) + seq!['/']);
            } else {
                assert(start =~= Seq::<char>::empty());
                assert(qualified@ =~= segment@);
            }
        }
        k += 1;
    }
    qualified
}

/// Some entry of the table has this path.
pub open spec fn has_path(table: Seq<DependencyView>, path: Seq<char>) -> bool {
    exists|i: int| 0 <= i < table.len() && (#[trigger] table[i]).path == path
}

/// The index of the first entry from `from` on that has this path, or the
/// length of the table where there is none.
pub open spec fn path_index(table: Seq<DependencyView>, path: Seq<char>, from: int) -> int
    decreases table.len() - from,
{
    if from < 0 || from >= table.len() {
        table.len() as int
    } else if table[from].path == path {
        from
    } else {
        path_index(table, path, from + 1)
    }
}

/// The table with a path registered: a path that is there changes nothing,
/// a new path gets an empty slot at the end.
pub open spec fn with_path(table: Seq<DependencyView>, path: Seq<char>) -> Seq<DependencyView> {
    if has_path(table, path) {
        table
    } else {
        table.push(DependencyView { path, data: None })
    }
}

/// No two entries have the same path.
pub open spec fn no_duplicates(table: Seq<DependencyView>) -> bool {
    forall|i: int, j: int|
        0 <= i < j < table.len() ==> (#[trigger] table[i]).path != (#[trigger] table[j]).path
}

/// `after` starts with the entries of `before`, each with its path and
/// payload as it was.
pub open spec fn extends(before: Seq<DependencyView>, after: Seq<DependencyView>) -> bool {
    &&& before.len() <= after.len()
    &&& forall|i: int| 0 <= i < before.len() ==> #[trigger] after[i] == before[i]
}

/// The canonical path that a node registers, if it is a dependency.
pub open spec fn node_path(base: Seq<char>, node: LiveNode) -> Option<Seq<char>> {
    match node.value {
        LiveValue::Dependency(path) => Some(qualify(base, path@)),
        _ => None,
    }
}

/// The table after the first `n` nodes were scanned in order.
pub open spec fn scanned_nodes(
    table: Seq<DependencyView>,
    base: Seq<char>,
    nodes: Seq<LiveNode>,
    n: int,
) -> Seq<DependencyView>
    decreases n,
{
    if n <= 0 {
        table
    } else {
        let before = scanned_nodes(table, base, nodes, n - 1);
        match node_path(base, nodes[n - 1]) {
            Some(path) => with_path(before, path),
            None => before,
        }
    }
}

/// The table after every node of a file's document was scanned, with the
/// file's manifest path as the base.
pub open spec fn scanned_file(table: Seq<DependencyView>, file: LiveFile) -> Seq<DependencyView> {
    scanned_nodes(
        table,
        file.body.cargo_manifest_path@,
        file.document.nodes@,
        file.document.nodes@.len() as int,
    )
}

/// The table after the first `n` files were scanned in order.
pub open spec fn scanned_files(table: Seq<DependencyView>, files: Seq<LiveFile>, n: int) -> Seq<
    DependencyView,
>
    decreases n,
{
    if n <= 0 {
        table
    } else {
        scanned_file(scanned_files(table, files, n - 1), files[n - 1])
    }
}

/// The table has the path of every dependency among the first `n` nodes.
pub open spec fn covers_nodes(
    table: Seq<DependencyView>,
    base: Seq<char>,
    nodes: Seq<LiveNode>,
    n: int,
) -> bool {
    forall|k: int|
        0 <= k < n ==> match #[trigger] node_path(base, nodes[k]) {
            Some(path) => has_path(table, path),
            None => true,
        }
}

/// The table has the path of every dependency in the file's document.
pub open spec fn covers_file(table: Seq<DependencyView>, file: LiveFile) -> bool {
    covers_nodes(
        table,
        file.body.cargo_manifest_path@,
        file.document.nodes@,
        file.document.nodes@.len() as int,
    )
}

/// The table has the path of every dependency in the first `n` files.
pub open spec fn covers_files(table: Seq<DependencyView>, files: Seq<LiveFile>, n: int) -> bool {
    forall|f: int| 0 <= f < n ==> covers_file(table, #[trigger] files[f])
}

/// What `path_index` finds is the first entry with the path.
pub proof fn lemma_path_index(table: Seq<DependencyView>, path: Seq<char>, from: int)
    requires
        0 <= from,
    ensures
        from <= path_index(table, path, from) || path_index(table, path, from) == table.len(),
        path_index(table, path, from) <= table.len(),
        path_index(table, path, from) < table.len() ==> table[path_index(
            table,
            path,
            from,
        )].path == path,
        forall|j: int|
            from <= j < path_index(table, path, from) && j < table.len() ==> (
            #[trigger] table[j]).path != path,
    decreases table.len() - from,
{
    if from < table.len() && table[from].path != path {
        lemma_path_index(table, path, from + 1);
    }
}

/// A table has a path exactly when `path_index` finds it.
pub proof fn lemma_has_path_index(table: Seq<DependencyView>, path: Seq<char>)
    ensures
        has_path(table, path) <==> path_index(table, path, 0) < table.len(),
{
    lemma_path_index(table, path, 0);
    if has_path(table, path) {
        let i = choose|i: int| 0 <= i < table.len() && (#[trigger] table[i]).path == path;
        assert(table[i].path == path);
    }
    if path_index(table, path, 0) < table.len() {
        assert(table[path_index(table, path, 0)].path == path);
    }
}

/// A path that a table has, every table that extends it has too.
pub proof fn lemma_has_path_extends(
    before: Seq<DependencyView>,
    after: Seq<DependencyView>,
    path: Seq<char>,
)
    requires
        extends(before, after),
        has_path(before, path),
    ensures
        has_path(after, path),
{
    let i = choose|i: int| 0 <= i < before.len() && (#[trigger] before[i]).path == path;
    assert(after[i] == before[i]);
    assert(after[i].path == path);
}

/// Registering a path extends the table, puts the path in it, and adds no
/// duplicate.
pub proof fn lemma_with_path(table: Seq<DependencyView>, path: Seq<char>)
    ensures
        extends(table, with_path(table, path)),
        has_path(with_path(table, path), path),
        no_duplicates(table) ==> no_duplicates(with_path(table, path)),
{
    let after = with_path(table, path);
    if !has_path(table, path) {
        assert(after[table.len() as int].path == path);
        if no_duplicates(table) {
            assert forall|i: int, j: int| 0 <= i < j < after.len() implies (#[trigger] after[i]).path
                != (#[trigger] after[j]).path by {
                if j < table.len() {
                    assert(after[i] == table[i]);
                    assert(after[j] == table[j]);
                } else {
                    assert(after[i] == table[i]);
                    assert(table[i].path != path);
                }
            }
        }
    }
}

/// Extending is transitive.
pub proof fn lemma_extends_transitive(
    a: Seq<DependencyView>,
    b: Seq<DependencyView>,
    c: Seq<DependencyView>,
)
    requires
        extends(a, b),
        extends(b, c),
    ensures
        extends(a, c),
{
    assert forall|i: int| 0 <= i < a.len() implies #[trigger] c[i] == a[i] by {
        assert(b[i] == a[i]);
        assert(c[i] == b[i]);
    }
}

/// What a table covers, every table that extends it covers too.
pub proof fn lemma_covers_nodes_extends(
    before: Seq<DependencyView>,
    after: Seq<DependencyView>,
    base: Seq<char>,
    nodes: Seq<LiveNode>,
    n: int,
)
    requires
        extends(before, after),
        covers_nodes(before, base, nodes, n),
    ensures
        covers_nodes(after, base, nodes, n),
{
    assert forall|k: int| 0 <= k < n implies match #[trigger] node_path(base, nodes[k]) {
        Some(path) => has_path(after, path),
        None => true,
    } by {
        match node_path(base, nodes[k]) {
            Some(path) => {
                lemma_has_path_extends(before, after, path);
            },
            None => {},
        }
    }
}

/// Scanning nodes extends the table, covers the scanned nodes, and adds no
/// duplicate.
pub proof fn lemma_scanned_nodes(
    table: Seq<DependencyView>,
    base: Seq<char>,
    nodes: Seq<LiveNode>,
    n: int,
)
    ensures
        extends(table, scanned_nodes(table, base, nodes, n)),
        covers_nodes(scanned_nodes(table, base, nodes, n), base, nodes, n),
        no_duplicates(table) ==> no_duplicates(scanned_nodes(table, base, nodes, n)),
    decreases n,
{
    if n > 0 {
        let before = scanned_nodes(table, base, nodes, n - 1);
        let after = scanned_nodes(table, base, nodes, n);
        lemma_scanned_nodes(table, base, nodes, n - 1);
        match node_path(base, nodes[n - 1]) {
            Some(path) => {
                lemma_with_path(before, path);
            },
            None => {},
        }
        lemma_extends_transitive(table, before, after);
        lemma_covers_nodes_extends(before, after, base, nodes, n - 1);
    }
}

/// Scanning nodes that the table already covers changes nothing.
pub proof fn lemma_scanned_nodes_fixed(
    table: Seq<DependencyView>,
    base: Seq<char>,
    nodes: Seq<LiveNode>,
    n: int,
)
    requires
        covers_nodes(table, base, nodes, n),
    ensures
        scanned_nodes(table, base, nodes, n) == table,
    decreases n,
{
    if n > 0 {
        lemma_scanned_nodes_fixed(table, base, nodes, n - 1);
        assert(node_path(base, nodes[n - 1]) is Some ==> has_path(
            table,
            node_path(base, nodes[n - 1])->Some_0,
        ));
    }
}

/// Scanning files extends the table, covers the scanned files, and adds no
/// duplicate.
pub proof fn lemma_scanned_files(table: Seq<DependencyView>, files: Seq<LiveFile>, n: int)
    ensures
        extends(table, scanned_files(table, files, n)),
        covers_files(scanned_files(table, files, n), files, n),
        no_duplicates(table) ==> no_duplicates(scanned_files(table, files, n)),
    decreases n,
{
    if n > 0 {
        let before = scanned_files(table, files, n - 1);
        let after = scanned_files(table, files, n);
        let file = files[n - 1];
        lemma_scanned_files(table, files, n - 1);
        lemma_scanned_nodes(
            before,
            file.body.cargo_manifest_path@,
            file.document.nodes@,
            file.document.nodes@.len() as int,
        );
        lemma_extends_transitive(table, before, after);
        assert forall|f: int| 0 <= f < n implies covers_file(after, #[trigger] files[f]) by {
            if f < n - 1 {
                assert(covers_file(before, files[f]));
                lemma_covers_nodes_extends(
                    before,
                    after,
                    files[f].body.cargo_manifest_path@,
                    files[f].document.nodes@,
                    files[f].document.nodes@.len() as int,
                );
            }
        }
    }
}

/// Scanning files that the table already covers changes nothing.
pub proof fn lemma_scanned_files_fixed(table: Seq<DependencyView>, files: Seq<LiveFile>, n: int)
    requires
        covers_files(table, files, n),
    ensures
        scanned_files(table, files, n) == table,
    decreases n,
{
    if n > 0 {
        lemma_scanned_files_fixed(table, files, n - 1);
        assert(covers_file(table, files[n - 1]));
        lemma_scanned_nodes_fixed(
            table,
            files[n - 1].body.cargo_manifest_path@,
            files[n - 1].document.nodes@,
            files[n - 1].document.nodes@.len() as int,
        );
    }
}

/// Idempotent registration: after one scan of the files the table has the
/// canonical path of every dependency in them; a table without duplicates
/// still has none, so each path has exactly one entry; every entry that was
/// there before keeps its place, path and payload; and a second scan of
/// the same files changes nothing.
pub proof fn law_scan_is_idempotent(table: Seq<DependencyView>, files: Seq<LiveFile>)
    ensures
        covers_files(scanned_files(table, files, files.len() as int), files, files.len() as int),
        no_duplicates(table) ==> no_duplicates(scanned_files(table, files, files.len() as int)),
        extends(table, scanned_files(table, files, files.len() as int)),
        scanned_files(scanned_files(table, files, files.len() as int), files, files.len() as int)
            == scanned_files(table, files, files.len() as int),
{
    let n = files.len() as int;
    lemma_scanned_files(table, files, n);
    lemma_scanned_files_fixed(scanned_files(table, files, n), files, n);
}

impl CxDependencies {
    /// An empty table.
    pub fn new() -> (table: CxDependencies)
        ensures
            table@.len() == 0,
    {
        CxDependencies { entries: Vec::new() }
    }

    /// The index of the first entry with this path.
    pub fn find(&self, path: &String) -> (found: Option<usize>)
        ensures
            match found {
                Some(i) => i < self@.len() && i == path_index(self@, path@, 0),
                None => path_index(self@, path@, 0) == self@.len(),
            },
    {
        let mut i: usize = 0;
        while i < self.entries.len()
            invariant
                i <= self.entries.len(),
                self@.len() == self.entries@.len(),
                path_index(self@, path@, 0) == path_index(self@, path@, i as int),
            decreases self.entries.len() - i,
        {
            assert(self@[i as int].path == self.entries@[i as int].path@);
            if self.entries[i].path == *path {
                return Some(i);
            }
            i += 1;
        }
        None
    }

    /// Whether the table has an entry with this path.
    pub fn contains(&self, path: &str) -> (yes: bool)
        ensures
            yes == has_path(self@, path@),
    {
        let key = String::from_str(path);
        proof {
            lemma_has_path_index(self@, path@);
        }
        self.find(&key).is_some()
    }

    /// Registers a path: a path that is there changes nothing, a new path
    /// gets an empty slot at the end.
    pub fn insert_if_absent(&mut self, path: String)
        ensures
            final(self)@ == with_path(old(self)@, path@),
    {
        proof {
            lemma_has_path_index(self@, path@);
        }
        if self.find(&path).is_none() {
            let ghost entry = DependencyView { path: path@, data: None };
            self.entries.push(CxDependencyEntry { path, dependency: CxDependency { data: None } });
            assert(self@ =~= old(self)@.push(entry));
        }
    }

    /// Scans the nodes of one document whose file has the base `base`:
    /// each dependency among them is registered under its canonical path.
    pub fn scan_nodes(&mut self, base: &str, nodes: &Vec<LiveNode>)
        ensures
            final(self)@ == scanned_nodes(old(self)@, base@, nodes@, nodes@.len() as int),
    {
        let mut i: usize = 0;
        while i < nodes.len()
            invariant
                i <= nodes.len(),
                self@ == scanned_nodes(old(self)@, base@, nodes@, i as int),
            decreases nodes.len() - i,
        {
            match &nodes[i].value {
                LiveValue::Dependency(path) => {
                    let qualified = qualify_path(base, path.as_str());
                    self.insert_if_absent(qualified);
                },
                _ => {},
            }
            i += 1;
        }
    }

    /// The slot of the dependency with this path, if the table has it.
    pub fn get(&self, path: &str) -> (found: Option<&CxDependency>)
        ensures
            match found {
                Some(dependency) => has_path(self@, path@) && *dependency
                    == self.entries@[path_index(self@, path@, 0)].dependency,
                None => !has_path(self@, path@),
            },
    {
        let key = String::from_str(path);
        proof {
            lemma_has_path_index(self@, path@);
        }
        match self.find(&key) {
            Some(i) => Some(&self.entries[i].dependency),
            None => None,
        }
    }

    /// Puts what a loader read into the slot of the dependency with this
    /// path. A path that the table does not have is refused and nothing
    /// changes.
    pub fn load(&mut self, path: &str, data: Vec<u8>) -> (loaded: bool)
        ensures
            loaded == has_path(old(self)@, path@),
            final(self)@ == if loaded {
                old(self)@.update(
                    path_index(old(self)@, path@, 0),
                    DependencyView { path: path@, data: Some(data@) },
                )
            } else {
                old(self)@
            },
    {
        let key = String::from_str(path);
        proof {
            lemma_has_path_index(self@, path@);
            lemma_path_index(self@, path@, 0);
        }
        match self.find(&key) {
            Some(i) => {
                let ghost entry = DependencyView { path: path@, data: Some(data@) };
                self.entries[i].dependency.data = Some(data);
                assert(self@ =~= old(self)@.update(i as int, entry));
                true
            },
            None => false,
        }
    }

    /// The number of entries.
    pub fn len(&self) -> (n: usize)
        ensures
            n == self@.len(),
    {
        self.entries.len()
    }
}

} // verus!
