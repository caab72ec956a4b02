//! Script registry and change detection.
//!
//! Each interpreter owns an ordered registry of script files.  A file is
//! re-executed on a reload pass only when its trimmed content differs from
//! the snapshot stored after the last successful execution; this keeps a
//! polling hot-reload from re-running every script every frame.

use vstd::prelude::*;

verus! {

/// One whitespace character, as `str::trim` understands it
/// (the Unicode `White_Space` set).
pub open spec fn is_space_char(c: char) -> bool {
    c == ' ' || c == '\t' || c == '\n' || c == '\u{b}' || c == '\u{c}' || c == '\r'
        || c == '\u{85}' || c == '\u{a0}' || c == '\u{1680}'
        || (0x2000 <= c as u32 && c as u32 <= 0x200a)
        || c == '\u{2028}' || c == '\u{2029}' || c == '\u{202f}' || c == '\u{205f}'
        || c == '\u{3000}'
}

/// Executable test matching `is_space_char`.
pub fn is_space(c: char) -> (r: bool)
    ensures
        r == is_space_char(c),
{
    c == ' ' || c == '\t' || c == '\n' || c == '\u{b}' || c == '\u{c}' || c == '\r'
        || c == '\u{85}' || c == '\u{a0}' || c == '\u{1680}'
        || (0x2000 <= c as u32 && c as u32 <= 0x200a)
        || c == '\u{2028}' || c == '\u{2029}' || c == '\u{202f}' || c == '\u{205f}'
        || c == '\u{3000}'
}

/// The sequence with leading whitespace removed.
pub open spec fn trim_front_spec(s: Seq<char>) -> Seq<char>
    decreases s.len(),
{
    if s.len() > 0 && is_space_char(s[0]) {
        trim_front_spec(s.drop_first())
    } else {
        s
    }
}

/// The sequence with trailing whitespace removed.
pub open spec fn trim_back_spec(s: Seq<char>) -> Seq<char>
    decreases s.len(),
{
    if s.len() > 0 && is_space_char(s.last()) {
        trim_back_spec(s.drop_last())
    } else {
        s
    }
}

/// The sequence with leading and trailing whitespace removed, as `str::trim`
/// computes it.
pub open spec fn trim_spec(s: Seq<char>) -> Seq<char> {
    trim_back_spec(trim_front_spec(s))
}

proof fn lemma_trim_front_range(s: Seq<char>, i: int)
    requires
        0 <= i <= s.len(),
        forall|k: int| 0 <= k < i ==> is_space_char(s[k]),
        i == s.len() || !is_space_char(s[i]),
    ensures
        trim_front_spec(s) == s.subrange(i, s.len() as int),
    decreases i,
{
    if i == 0 {
        assert(s.subrange(0, s.len() as int) =~= s);
    } else {
        assert(is_space_char(s[0]));
        lemma_trim_front_range(s.drop_first(), i - 1);
        assert(s.drop_first().subrange(i - 1, s.drop_first().len() as int) =~= s.subrange(
            i,
            s.len() as int,
        ));
    }
}

proof fn lemma_trim_back_range(s: Seq<char>, j: int)
    requires
        0 <= j <= s.len(),
        forall|k: int| j <= k < s.len() ==> is_space_char(s[k]),
        j == 0 || !is_space_char(s[j - 1]),
    ensures
        trim_back_spec(s) == s.subrange(0, j),
    decreases s.len() - j,
{
    if j == s.len() {
        assert(s.subrange(0, s.len() as int) =~= s);
    } else {
        assert(is_space_char(s.last()));
        lemma_trim_back_range(s.drop_last(), j);
        assert(s.drop_last().subrange(0, j) =~= s.subrange(0, j));
    }
}

/// Removes leading and trailing whitespace, like `str::trim`.
pub fn trim_str(s: &str) -> (r: String)
    ensures
        r@ == trim_spec(s@),
{
    let ghost sv = s@;
    let n = s.unicode_len();
    let mut i: usize = 0;
    while i < n && is_space(s.get_char(i))
        invariant
            0 <= i <= n,
            n == sv.len(),
            s@ == sv,
            forall|k: int| 0 <= k < i ==> is_space_char(sv[k]),
        decreases n - i,
    {
        i = i + 1;
    }
    let mut j: usize = n;
    while j > i && is_space(s.get_char(j - 1))
        invariant
            i <= j <= n,
            n == sv.len(),
            s@ == sv,
            forall|k: int| j <= k < n ==> is_space_char(sv[k]),
        decreases j,
    {
        j = j - 1;
    }
    let t = s.substring_char(i, j);
    proof {
        lemma_trim_front_range(sv, i as int);
        let front = sv.subrange(i as int, sv.len() as int);
        lemma_trim_back_range(front, j - i);
        assert(front.subrange(0, j - i) =~= sv.subrange(i as int, j as int));
    }
    t.to_owned()
}

/// A registered script file together with the snapshot of the content that
/// was last successfully executed (stored trimmed).
pub struct ScriptFile {
    pub path: String,
    pub last_content: Option<String>,
}

/// The stored snapshot of a file, as a sequence of characters.
pub open spec fn snapshot_view(f: ScriptFile) -> Option<Seq<char>> {
    match f.last_content {
        Some(s) => Some(s@),
        None => None,
    }
}

/// A reload pass must execute a file exactly when its trimmed content
/// differs from the stored snapshot.
pub open spec fn wants_execution(f: ScriptFile, content: Seq<char>) -> bool {
    snapshot_view(f) != Some(trim_spec(content))
}


/// What a reload pass did with one registered file.
#[derive(Debug, PartialEq, Eq)]
pub enum ReloadOutcome {
    /// The trimmed content matched the stored snapshot; nothing ran.
    Skipped,
    /// The content ran successfully; the snapshot now holds it trimmed.
    Executed,
    /// The content ran and the interpreter reported the carried message;
    /// the snapshot is unchanged, so the file is retried next pass.
    Failed(String),
}

/// A registered file could not be read; the engine treats this as fatal.
/// `at` records (in ghost code only) which registry index failed.
pub struct IoError {
    pub path: String,
    pub at: Ghost<int>,
}

/// The per-file outcomes of one reload pass, in registration order.
#[derive(Debug, PartialEq, Eq)]
pub struct ReloadReport {
    pub outcomes: Vec<ReloadOutcome>,
}

/// What one reload pass guarantees for one file that could be read:
/// the path is kept; the file is skipped exactly when its trimmed content
/// matches the stored snapshot; the snapshot is replaced by the trimmed
/// content exactly when execution succeeded.
pub open spec fn reload_file_ok(
    before: ScriptFile,
    after: ScriptFile,
    content: Seq<char>,
    outcome: ReloadOutcome,
) -> bool {
    &&& after.path@ == before.path@
    &&& (outcome is Skipped <==> !wants_execution(before, content))
    &&& (outcome is Executed ==> snapshot_view(after) == Some(trim_spec(content)))
    &&& (!(outcome is Executed) ==> snapshot_view(after) == snapshot_view(before))
}

/// The weaker per-file guarantee that still holds for files processed
/// before a fatal read failure ended the pass.
pub open spec fn reload_file_partial(before: ScriptFile, after: ScriptFile, content: Seq<char>) -> bool {
    &&& after.path@ == before.path@
    &&& (snapshot_view(after) == snapshot_view(before) || snapshot_view(after) == Some(
        trim_spec(content),
    ))
    &&& (!wants_execution(before, content) ==> snapshot_view(after) == snapshot_view(before))
}

/// A reload pass that ended fatally: file `k` was the first one whose
/// content could not be read; the error names its path; files before `k`
/// were processed normally and files from `k` on were left untouched.
pub open spec fn reload_failed_at(
    files_before: Seq<ScriptFile>,
    files_after: Seq<ScriptFile>,
    contents: Seq<Option<String>>,
    e: IoError,
    k: int,
) -> bool {
    &&& 0 <= k < files_before.len()
    &&& contents[k] is None
    &&& forall|j: int| 0 <= j < k ==> contents[j] is Some
    &&& e.path@ == files_before[k].path@
    &&& forall|j: int|
        0 <= j < k ==> reload_file_partial(
            files_before[j],
            files_after[j],
            contents[j]->Some_0@,
        )
    &&& forall|j: int| k <= j < files_before.len() ==> files_after[j] == files_before[j]
}

/// The contract of a whole successful reload pass: every file could be
/// read and every file satisfies [`reload_file_ok`] for its outcome.
pub open spec fn reload_pass_ok(
    files_before: Seq<ScriptFile>,
    files_after: Seq<ScriptFile>,
    contents: Seq<Option<String>>,
    outcomes: Seq<ReloadOutcome>,
) -> bool {
    &&& files_after.len() == files_before.len()
    &&& outcomes.len() == files_before.len()
    &&& forall|k: int|
        0 <= k < files_before.len() ==> contents[k] is Some && reload_file_ok(
            files_before[k],
            files_after[k],
            contents[k]->Some_0@,
            outcomes[k],
        )
}


/// A file whose trimmed content equals the stored snapshot is not
/// re-executed by a reload pass: its outcome is a skip and its snapshot
/// stays as it was, so the execution side effects cannot repeat.  Since
/// the snapshot is stored trimmed, a whitespace-only change (one that
/// trimming erases) is ignored in the same way.
pub proof fn lemma_reload_skips_unchanged(
    before: ScriptFile,
    after: ScriptFile,
    content: Seq<char>,
    outcome: ReloadOutcome,
)
    requires
        reload_file_ok(before, after, content, outcome),
        snapshot_view(before) == Some(trim_spec(content)),
    ensures
        outcome is Skipped,
        snapshot_view(after) == snapshot_view(before),
{
}

/// A content change that survives trimming makes the next reload pass
/// execute the file (exactly once per pass, since each file gets one
/// outcome); when the execution succeeds, the snapshot becomes the new
/// trimmed content.
pub proof fn lemma_reload_executes_changed(
    before: ScriptFile,
    after: ScriptFile,
    content: Seq<char>,
    outcome: ReloadOutcome,
)
    requires
        reload_file_ok(before, after, content, outcome),
        snapshot_view(before) != Some(trim_spec(content)),
    ensures
        !(outcome is Skipped),
        outcome is Executed ==> snapshot_view(after) == Some(trim_spec(content)),
        outcome is Failed ==> snapshot_view(after) == snapshot_view(before),
{
}

/// The ordered registry of script files owned by one interpreter.
pub struct ScriptRegistry {
    pub files: Vec<ScriptFile>,
}

impl ScriptRegistry {
    /// An empty registry.
    pub fn new() -> (r: Self)
        ensures
            r.files@ =~= Seq::<ScriptFile>::empty(),
    {
        ScriptRegistry { files: Vec::new() }
    }

    /// Registers one more file, with no snapshot yet, at the end of the list.
    pub fn add(&mut self, path: String)
        ensures
            final(self).files@ == old(self).files@.push(
                ScriptFile { path, last_content: None },
            ),
    {
        self.files.push(ScriptFile { path, last_content: None });
    }
}

} // verus!
