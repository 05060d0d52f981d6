//! Worktree model: hook types, worktrees, and the list of non-bare worktrees.

use vstd::prelude::*;
use crate::error::GitError;
use crate::text::{has_prefix, lines, split_lines, split_once_at, split_once_char, str_eq, strip_prefix, trim, trim_str};
use vstd::std_specs::iter::IteratorSpec;

verus! {

/// Hook types for git operations.
#[derive(Debug, Clone, Copy, PartialEq, Eq, Structural)]
pub enum HookType {
    PostCreate,
    PostStart,
    PostSwitch,
    PreCommit,
    PreMerge,
    PostMerge,
    PreRemove,
}

/// The kebab-case name of a hook type.
pub open spec fn hook_type_name(h: HookType) -> Seq<char> {
    match h {
        HookType::PostCreate => seq!['p', 'o', 's', 't', '-', 'c', 'r', 'e', 'a', 't', 'e'],
        HookType::PostStart => seq!['p', 'o', 's', 't', '-', 's', 't', 'a', 'r', 't'],
        HookType::PostSwitch => seq!['p', 'o', 's', 't', '-', 's', 'w', 'i', 't', 'c', 'h'],
        HookType::PreCommit => seq!['p', 'r', 'e', '-', 'c', 'o', 'm', 'm', 'i', 't'],
        HookType::PreMerge => seq!['p', 'r', 'e', '-', 'm', 'e', 'r', 'g', 'e'],
        HookType::PostMerge => seq!['p', 'o', 's', 't', '-', 'm', 'e', 'r', 'g', 'e'],
        HookType::PreRemove => seq!['p', 'r', 'e', '-', 'r', 'e', 'm', 'o', 'v', 'e'],
    }
}

impl HookType {
    /// The kebab-case name, e.g. `post-create`.
    pub fn name(&self) -> (res: &'static str)
        ensures
            res@ == hook_type_name(*self),
    {
        match self {
            HookType::PostCreate => {
                proof { reveal_strlit("post-create"); }
                "post-create"
            },
            HookType::PostStart => {
                proof { reveal_strlit("post-start"); }
                "post-start"
            },
            HookType::PostSwitch => {
                proof { reveal_strlit("post-switch"); }
                "post-switch"
            },
            HookType::PreCommit => {
                proof { reveal_strlit("pre-commit"); }
                "pre-commit"
            },
            HookType::PreMerge => {
                proof { reveal_strlit("pre-merge"); }
                "pre-merge"
            },
            HookType::PostMerge => {
                proof { reveal_strlit("post-merge"); }
                "post-merge"
            },
            HookType::PreRemove => {
                proof { reveal_strlit("pre-remove"); }
                "pre-remove"
            },
        }
    }
}

/// Worktree information.
#[derive(Debug)]
pub struct Worktree {
    pub path: String,
    pub head: String,
    pub branch: Option<String>,
    pub bare: bool,
    pub detached: bool,
    pub locked: Option<String>,
    pub prunable: Option<String>,
}

/// A copy of an optional string.
pub fn clone_opt_string(s: &Option<String>) -> (res: Option<String>)
    ensures
        res == *s,
{
    match s {
        Some(v) => Some(v.clone()),
        None => None,
    }
}

impl Clone for Worktree {
    fn clone(&self) -> (res: Self)
        ensures
            res == *self,
    {
        Worktree {
            path: self.path.clone(),
            head: self.head.clone(),
            branch: clone_opt_string(&self.branch),
            bare: self.bare,
            detached: self.detached,
            locked: clone_opt_string(&self.locked),
            prunable: clone_opt_string(&self.prunable),
        }
    }
}

/// The worktrees of `raw` that are not bare, in their original order.
pub open spec fn non_bare(raw: Seq<Worktree>) -> Seq<Worktree>
    decreases raw.len(),
{
    if raw.len() == 0 {
        Seq::empty()
    } else if raw.last().bare {
        non_bare(raw.drop_last())
    } else {
        non_bare(raw.drop_last()).push(raw.last())
    }
}

/// The error message when no non-bare worktree exists.
pub open spec fn no_worktrees_message() -> Seq<char> {
    seq!['N', 'o', ' ', 'w', 'o', 'r', 'k', 't', 'r', 'e', 'e', 's', ' ', 'f', 'o', 'u', 'n', 'd']
}

/// A list of worktrees with bare worktrees filtered out; the first one is the
/// primary worktree. A list is never empty and never holds a bare worktree.
#[derive(Debug)]
pub struct WorktreeList {
    worktrees: Vec<Worktree>,
}

impl WorktreeList {
    /// Well-formedness: at least one worktree, none of them bare.
    #[verifier::type_invariant]
    spec fn well_formed(self) -> bool {
        &&& self.worktrees@.len() > 0
        &&& forall|i: int| 0 <= i < self.worktrees@.len() ==> !#[trigger] self.worktrees@[i].bare
    }

    /// The worktrees in the list.
    pub closed spec fn spec_all(self) -> Seq<Worktree> {
        self.worktrees@
    }

    /// Create from raw worktrees, filtering bare entries; fails when no
    /// non-bare worktree remains.
    pub fn from_raw(raw_worktrees: Vec<Worktree>) -> (res: Result<Self, GitError>)
        ensures
            non_bare(raw_worktrees@).len() == 0 <==> res is Err,
            res matches Ok(list) ==> list.spec_all() == non_bare(raw_worktrees@),
            res is Err ==> (res matches Err(GitError::CommandFailed(m)) && m@ == no_worktrees_message()),
    {
        let mut worktrees: Vec<Worktree> = Vec::new();
        let ghost raw = raw_worktrees@;
        for wt in it: raw_worktrees
            invariant
                it.seq() == raw,
                worktrees@ == non_bare(raw.take(it.index() as int)),
                forall|j: int| 0 <= j < worktrees@.len() ==> !#[trigger] worktrees@[j].bare,
        {
            proof {
                assert(raw.take(it.index() + 1).drop_last() == raw.take(it.index() as int));
            }
            if !wt.bare {
                worktrees.push(wt);
            }
        }
        proof {
            assert(raw.take(raw.len() as int) == raw);
        }
        if worktrees.len() == 0 {
            proof { reveal_strlit("No worktrees found"); }
            return Err(GitError::CommandFailed("No worktrees found".to_owned()));
        }
        Ok(WorktreeList { worktrees })
    }

    /// The primary worktree (the first non-bare worktree).
    pub fn primary(&self) -> (res: &Worktree)
        ensures
            *res == self.spec_all()[0],
    {
        proof { use_type_invariant(self); }
        &self.worktrees[0]
    }

    /// All worktrees (non-bare only).
    pub fn all(&self) -> (res: &[Worktree])
        ensures
            res@ == self.spec_all(),
    {
        self.worktrees.as_slice()
    }

    /// Number of worktrees.
    pub fn len(&self) -> (n: usize)
        ensures
            n == self.spec_all().len(),
            n > 0,
    {
        proof { use_type_invariant(self); }
        self.worktrees.len()
    }

    /// Whether the list is empty (never true for a constructed list).
    pub fn is_empty(&self) -> (b: bool)
        ensures
            b == (self.spec_all().len() == 0),
            !b,
    {
        proof { use_type_invariant(self); }
        self.worktrees.len() == 0
    }

    /// Consume the list, iterating over its worktrees by value.
    pub fn into_iter(self) -> (it: std::vec::IntoIter<Worktree>)
        ensures
            IteratorSpec::remaining(&it) == self.spec_all(),
    {
        let WorktreeList { worktrees } = self;
        worktrees.into_iter()
    }

    /// Iterate over the worktrees.
    pub fn iter(&self) -> (it: std::slice::Iter<'_, Worktree>)
        ensures
            IteratorSpec::remaining(&it) == self.spec_all().as_ref(),
    {
        self.worktrees.iter()
    }
}

/// The branch named by a rebase's `head-name` file: its trimmed content
/// without a `refs/heads/` prefix.
pub open spec fn rebase_branch_name(content: Seq<char>) -> Seq<char> {
    if has_prefix(trim(content), "refs/heads/"@) {
        trim(content).skip(11)
    } else {
        trim(content)
    }
}

/// The branch named by the content of a rebase's `head-name` file.
pub fn branch_from_head_name(content: &str) -> (res: String)
    ensures
        res@ == rebase_branch_name(content@),
{
    let t = trim_str(content);
    proof { reveal_strlit("refs/heads/"); }
    match strip_prefix(t.as_str(), "refs/heads/") {
        Some(b) => b,
        None => t,
    }
}

/// Whether a parsed worktree needs its branch from a rebase in progress:
/// it is detached and has no branch.
pub open spec fn needs_rebase_branch(wt: Worktree) -> bool {
    wt.detached && wt.branch is None
}

/// Whether the branch of a parsed worktree has to be read from a rebase in
/// progress.
pub fn wants_rebase_branch(wt: &Worktree) -> (b: bool)
    ensures
        b == needs_rebase_branch(*wt),
{
    wt.detached && wt.branch.is_none()
}

/// Finalize a parsed worktree: a detached worktree without a branch takes the
/// branch being rebased, when there is one (`rebase_branch`, read from the
/// worktree's git directory).
pub fn finalize_worktree(wt: Worktree, rebase_branch: Option<String>) -> (res: Worktree)
    ensures
        res == (if needs_rebase_branch(wt) && rebase_branch is Some {
            Worktree { branch: rebase_branch, ..wt }
        } else {
            wt
        }),
{
    let mut wt = wt;
    if wt.detached && wt.branch.is_none() {
        if let Some(b) = rebase_branch {
            wt.branch = Some(b);
        }
    }
    wt
}

/// What a worktree record holds, as values.
pub struct WorktreeView {
    pub path: Seq<char>,
    pub head: Seq<char>,
    pub branch: Option<Seq<char>>,
    pub bare: bool,
    pub detached: bool,
    pub locked: Option<Seq<char>>,
    pub prunable: Option<Seq<char>>,
}

/// The view of an optional string.
pub open spec fn opt_string_view(s: Option<String>) -> Option<Seq<char>> {
    match s {
        Some(v) => Some(v@),
        None => None,
    }
}

impl View for Worktree {
    type V = WorktreeView;

    open spec fn view(&self) -> WorktreeView {
        WorktreeView {
            path: self.path@,
            head: self.head@,
            branch: opt_string_view(self.branch),
            bare: self.bare,
            detached: self.detached,
            locked: opt_string_view(self.locked),
            prunable: opt_string_view(self.prunable),
        }
    }
}

/// The views of worktrees.
pub open spec fn worktree_views(ws: Seq<Worktree>) -> Seq<WorktreeView> {
    ws.map_values(|w: Worktree| w@)
}

/// A fresh record for the worktree at `path`.
pub open spec fn new_record(path: Seq<char>) -> WorktreeView {
    WorktreeView {
        path,
        head: Seq::empty(),
        branch: None,
        bare: false,
        detached: false,
        locked: None,
        prunable: None,
    }
}

/// The branch named by a `branch` line: the ref without `refs/heads/`.
pub open spec fn branch_of_ref(r: Seq<char>) -> Seq<char> {
    if has_prefix(r, "refs/heads/"@) { r.skip("refs/heads/"@.len() as int) } else { r }
}

/// The key of a porcelain line: the text before its first space.
pub open spec fn line_key(l: Seq<char>) -> Seq<char> {
    match split_once_at(l, ' ') {
        Some((k, _)) => k,
        None => l,
    }
}

/// The value of a porcelain line: the text after its first space.
pub open spec fn line_value(l: Seq<char>) -> Option<Seq<char>> {
    match split_once_at(l, ' ') {
        Some((_, v)) => Some(v),
        None => None,
    }
}

/// A record after one of its attribute lines; lines of other keys, and
/// `HEAD` or `branch` lines without a value, change nothing.
pub open spec fn with_attribute(w: WorktreeView, key: Seq<char>, value: Option<Seq<char>>) -> WorktreeView {
    if key == "HEAD"@ {
        match value {
            Some(v) => WorktreeView { head: v, ..w },
            None => w,
        }
    } else if key == "branch"@ {
        match value {
            Some(v) => WorktreeView { branch: Some(branch_of_ref(v)), ..w },
            None => w,
        }
    } else if key == "bare"@ {
        WorktreeView { bare: true, ..w }
    } else if key == "detached"@ {
        WorktreeView { detached: true, ..w }
    } else if key == "locked"@ {
        WorktreeView { locked: Some(match value { Some(v) => v, None => Seq::empty() }), ..w }
    } else if key == "prunable"@ {
        WorktreeView { prunable: Some(match value { Some(v) => v, None => Seq::empty() }), ..w }
    } else {
        w
    }
}

/// The finished records with the current one, if any, appended.
pub open spec fn finish_record(done: Seq<WorktreeView>, cur: Option<WorktreeView>) -> Seq<WorktreeView> {
    match cur {
        Some(w) => done.push(w),
        None => done,
    }
}

/// The message of a `worktree` line without a path.
pub open spec fn missing_path_message() -> Seq<char> {
    "worktree line without a path"@
}

/// One line of `git worktree list --porcelain` read into the state: a blank
/// line ends the current record, a `worktree` line starts a new one, any
/// other line sets an attribute of the current record (none: ignored).
pub open spec fn porcelain_step(done: Seq<WorktreeView>, cur: Option<WorktreeView>, l: Seq<char>)
    -> Result<(Seq<WorktreeView>, Option<WorktreeView>), Seq<char>>
{
    if l.len() == 0 {
        Ok((finish_record(done, cur), None))
    } else if line_key(l) == "worktree"@ {
        match line_value(l) {
            Some(p) => Ok((finish_record(done, cur), Some(new_record(p)))),
            None => Err(missing_path_message()),
        }
    } else {
        match cur {
            Some(w) => Ok((done, Some(with_attribute(w, line_key(l), line_value(l))))),
            None => Ok((done, None)),
        }
    }
}

/// The state after the lines `ls`.
pub open spec fn porcelain_state(ls: Seq<Seq<char>>) -> Result<(Seq<WorktreeView>, Option<WorktreeView>), Seq<char>>
    decreases ls.len(),
{
    if ls.len() == 0 {
        Ok((Seq::empty(), None))
    } else {
        match porcelain_state(ls.drop_last()) {
            Err(e) => Err(e),
            Ok((done, cur)) => porcelain_step(done, cur, ls.last()),
        }
    }
}

/// The worktrees listed by the output of `git worktree list --porcelain`.
pub open spec fn porcelain_worktrees(output: Seq<char>) -> Result<Seq<WorktreeView>, Seq<char>> {
    match porcelain_state(lines(output)) {
        Ok((done, cur)) => Ok(finish_record(done, cur)),
        Err(e) => Err(e),
    }
}

/// Set an attribute of a record being parsed.
fn apply_attribute(wt: &mut Worktree, key: &str, value: Option<String>)
    ensures
        final(wt)@ == with_attribute(old(wt)@, key@, opt_string_view(value)),
{
    if str_eq(key, "HEAD") {
        if let Some(v) = value {
            wt.head = v;
        }
    } else if str_eq(key, "branch") {
        if let Some(v) = value {
            let b = match strip_prefix(v.as_str(), "refs/heads/") {
                Some(b) => b,
                None => v,
            };
            wt.branch = Some(b);
        }
    } else if str_eq(key, "bare") {
        wt.bare = true;
    } else if str_eq(key, "detached") {
        wt.detached = true;
    } else if str_eq(key, "locked") {
        wt.locked = Some(match value {
            Some(v) => v,
            None => String::new(),
        });
    } else if str_eq(key, "prunable") {
        wt.prunable = Some(match value {
            Some(v) => v,
            None => String::new(),
        });
    }
}

/// The view of an optional record.
pub open spec fn opt_record_view(w: Option<Worktree>) -> Option<WorktreeView> {
    match w {
        Some(w) => Some(w@),
        None => None,
    }
}

/// Once the lines read so far give an error, all of them do.
proof fn lemma_porcelain_error_stays(ls: Seq<Seq<char>>, n: int)
    requires
        0 <= n <= ls.len(),
        porcelain_state(ls.take(n)) is Err,
    ensures
        porcelain_state(ls) == porcelain_state(ls.take(n)),
    decreases ls.len() - n,
{
    if n < ls.len() {
        assert(ls.take(n + 1).drop_last() =~= ls.take(n));
        lemma_porcelain_error_stays(ls, n + 1);
    } else {
        assert(ls.take(n) =~= ls);
    }
}

/// Parse the output of `git worktree list --porcelain` into worktrees, in
/// order; a `worktree` line without a path is a `ParseError`.
pub fn parse_worktree_list(output: &str) -> (res: Result<Vec<Worktree>, GitError>)
    ensures
        match res {
            Ok(v) => porcelain_worktrees(output@) == Ok::<Seq<WorktreeView>, Seq<char>>(worktree_views(v@)),
            Err(e) => e matches GitError::ParseError { message }
                && porcelain_worktrees(output@) == Err::<Seq<WorktreeView>, Seq<char>>(message@),
        },
{
    let ls = split_lines(output);
    let ghost all = lines(output@);
    let mut done: Vec<Worktree> = Vec::new();
    let mut cur: Option<Worktree> = None;
    let mut i: usize = 0;
    assert(all.take(0) =~= Seq::<Seq<char>>::empty());
    assert(worktree_views(done@) =~= Seq::<WorktreeView>::empty());
    while i < ls.len()
        invariant
            i <= ls@.len() == all.len(),
            all == lines(output@),
            forall|j: int| 0 <= j < ls@.len() ==> #[trigger] ls@[j]@ == all[j],
            porcelain_state(all.take(i as int))
                == Ok::<(Seq<WorktreeView>, Option<WorktreeView>), Seq<char>>((worktree_views(done@), opt_record_view(cur))),
        decreases ls@.len() - i,
    {
        let line = &ls[i];
        let ghost l = all[i as int];
        assert(all.take(i + 1).drop_last() =~= all.take(i as int));
        let ghost before = done@;
        if line.as_str().is_empty() {
            if let Some(w) = cur {
                done.push(w);
                assert(worktree_views(done@) =~= worktree_views(before).push(w@));
            }
            cur = None;
        } else {
            let (key, value): (String, Option<String>) = match split_once_char(line.as_str(), ' ') {
                Some((k, v)) => (k, Some(v)),
                None => (line.clone(), None),
            };
            assert(key@ == line_key(l) && opt_string_view(value) == line_value(l));
            if str_eq(key.as_str(), "worktree") {
                match value {
                    Some(p) => {
                        if let Some(w) = cur {
                            done.push(w);
                            assert(worktree_views(done@) =~= worktree_views(before).push(w@));
                        }
                        cur = Some(Worktree {
                            path: p,
                            head: String::new(),
                            branch: None,
                            bare: false,
                            detached: false,
                            locked: None,
                            prunable: None,
                        });
                    },
                    None => {
                        proof { lemma_porcelain_error_stays(all, i as int + 1); }
                        return Err(GitError::ParseError { message: "worktree line without a path".to_owned() });
                    },
                }
            } else {
                if let Some(mut w) = cur {
                    apply_attribute(&mut w, key.as_str(), value);
                    cur = Some(w);
                } else {
                    cur = None;
                }
            }
        }
        i = i + 1;
    }
    assert(all.take(i as int) =~= all);
    if let Some(w) = cur {
        let ghost before = done@;
        done.push(w);
        assert(worktree_views(done@) =~= worktree_views(before).push(w@));
    }
    Ok(done)
}

/// The first worktree that has `branch` checked out.
pub fn worktree_for_branch(worktrees: &Vec<Worktree>, branch: &str) -> (res: Option<usize>)
    ensures
        match res {
            Some(i) => i < worktrees@.len() && worktrees@[i as int]@.branch == Some(branch@)
                && forall|j: int| 0 <= j < i ==> (#[trigger] worktrees@[j])@.branch != Some(branch@),
            None => forall|j: int| 0 <= j < worktrees@.len() ==> (#[trigger] worktrees@[j])@.branch != Some(branch@),
        },
{
    let mut i: usize = 0;
    while i < worktrees.len()
        invariant
            i <= worktrees@.len(),
            forall|j: int| 0 <= j < i ==> (#[trigger] worktrees@[j])@.branch != Some(branch@),
        decreases worktrees@.len() - i,
    {
        let found = match &worktrees[i].branch {
            Some(b) => str_eq(b.as_str(), branch),
            None => false,
        };
        if found {
            return Some(i);
        }
        i = i + 1;
    }
    None
}

/// The default branch named by a remote's `HEAD` (the output of
/// `git symbolic-ref --short refs/remotes/<remote>/HEAD`): the trimmed name
/// without the `<remote>/` prefix.
pub open spec fn remote_head_branch(output: Seq<char>, remote: Seq<char>) -> Seq<char> {
    let t = trim(output);
    let p = remote + seq!['/'];
    if has_prefix(t, p) { t.skip(p.len() as int) } else { t }
}

/// The default branch named by a remote's `HEAD`.
pub fn default_branch_of_remote_head(output: &str, remote: &str) -> (res: String)
    ensures
        res@ == remote_head_branch(output@, remote@),
{
    let t = trim_str(output);
    let mut p = remote.to_owned();
    crate::text::push_char(&mut p, '/');
    assert(p@ =~= remote@ + seq!['/']);
    match strip_prefix(t.as_str(), p.as_str()) {
        Some(b) => b,
        None => t,
    }
}

/// A `branch refs/heads/<name>` line gives the current record the branch
/// `<name>` exactly (slashes and all), and changes nothing else.
pub proof fn lemma_branch_line_names_branch(done: Seq<WorktreeView>, w: WorktreeView, name: Seq<char>)
    ensures
        porcelain_step(done, Some(w), "branch "@ + ("refs/heads/"@ + name))
            == Ok::<(Seq<WorktreeView>, Option<WorktreeView>), Seq<char>>(
                (done, Some(WorktreeView { branch: Some(name), ..w }))),
{
    reveal_strlit("branch ");
    reveal_strlit("refs/heads/");
    reveal_strlit("branch");
    reveal_strlit("worktree");
    reveal_strlit("HEAD");
    let r = "refs/heads/"@ + name;
    let l = "branch "@ + r;
    assert forall|j: int| 0 <= j < 6 implies l[j] != ' ' by {
        assert(l[j] == "branch "@[j]);
    }
    assert(l[6] == ' ');
    crate::text::lemma_find_char_at(l, ' ', 6);
    assert(l.take(6) =~= "branch"@);
    assert(l.skip(7) =~= r);
    assert(line_key(l) == "branch"@);
    assert(line_value(l) == Some(r));
    assert(has_prefix(r, "refs/heads/"@)) by {
        assert(r.take("refs/heads/"@.len() as int) =~= "refs/heads/"@);
    }
    assert(r.skip("refs/heads/"@.len() as int) =~= name);
}

/// The branch of a rebase's `head-name` file is read as a `branch` line's
/// ref is: `refs/heads/<name>` (once trimmed) gives exactly `<name>`.
pub proof fn lemma_head_name_branch(content: Seq<char>, name: Seq<char>)
    ensures
        rebase_branch_name(content) == branch_of_ref(trim(content)),
        trim(content) == "refs/heads/"@ + name ==> rebase_branch_name(content) == name,
{
    reveal_strlit("refs/heads/");
    if trim(content) == "refs/heads/"@ + name {
        let r = "refs/heads/"@ + name;
        assert(r.take(11) =~= "refs/heads/"@);
        assert(r.skip(11) =~= name);
    }
}

} // verus!
