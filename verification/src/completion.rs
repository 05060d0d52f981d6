//! Shell completion: what the word under the cursor is (an option's value,
//! a branch argument, or something else) and which candidates to offer.
//!
//! The command line interface is described by a `CommandTree`: commands with
//! their subcommands, the options that take values, and the possible values
//! of options and positional arguments.

use vstd::prelude::*;
use crate::expansion::pairs_view;
use crate::text::{
    push_str, chars_of, find_char, has_prefix, lemma_find_char, lemma_find_char_at, lines, split_lines, split_once_at,
    split_once_char, starts_with, str_eq, string_of, strings_view, strip_prefix,
};

verus! {

/// A possible value of an argument.
pub struct PossibleValue {
    pub name: String,
    pub help: Option<String>,
    pub hidden: bool,
}

/// An option that takes a value.
pub struct OptSpec {
    pub long: Option<String>,
    pub short: Option<char>,
    /// Whether the option takes at least one value.
    pub takes_value: bool,
    /// Whether the option is global (propagated to subcommands).
    pub global: bool,
    pub values: Vec<PossibleValue>,
}

/// A command: its name and aliases, its value-taking options, the possible
/// values of each positional argument, and its subcommands (indices into the
/// tree).
pub struct CommandNode {
    pub name: String,
    /// All aliases, hidden ones included.
    pub aliases: Vec<String>,
    /// The aliases shown in help.
    pub visible_aliases: Vec<String>,
    pub opts: Vec<OptSpec>,
    pub positionals: Vec<Vec<PossibleValue>>,
    pub subcommands: Vec<usize>,
}

/// A command tree; node 0 is the root command.
pub struct CommandTree {
    nodes: Vec<CommandNode>,
}

/// Whether every subcommand index of every node is a node of `nodes`.
pub open spec fn tree_closed(nodes: Seq<CommandNode>) -> bool {
    forall|n: int, k: int| 0 <= n < nodes.len() && 0 <= k < nodes[n].subcommands@.len()
        ==> #[trigger] nodes[n].subcommands@[k] < nodes.len()
}

impl CommandTree {
    #[verifier::type_invariant]
    spec fn well_formed(self) -> bool {
        &&& self.nodes@.len() > 0
        &&& tree_closed(self.nodes@)
    }

    /// The nodes of the tree.
    pub closed spec fn spec_nodes(self) -> Seq<CommandNode> {
        self.nodes@
    }

    /// Build a tree from its nodes; `None` when there is no root node or a
    /// subcommand index names no node.
    pub fn from_nodes(nodes: Vec<CommandNode>) -> (res: Option<CommandTree>)
        ensures
            res is Some <==> (nodes@.len() > 0 && tree_closed(nodes@)),
            res matches Some(t) ==> t.spec_nodes() == nodes@,
    {
        if nodes.len() == 0 {
            return None;
        }
        let mut n: usize = 0;
        while n < nodes.len()
            invariant
                n <= nodes@.len(),
                forall|a: int, k: int| 0 <= a < n && 0 <= k < nodes@[a].subcommands@.len()
                    ==> #[trigger] nodes@[a].subcommands@[k] < nodes@.len(),
            decreases nodes@.len() - n,
        {
            let mut k: usize = 0;
            while k < nodes[n].subcommands.len()
                invariant
                    n < nodes@.len(),
                    k <= nodes@[n as int].subcommands@.len(),
                    forall|a: int, j: int| 0 <= a < n && 0 <= j < nodes@[a].subcommands@.len()
                        ==> #[trigger] nodes@[a].subcommands@[j] < nodes@.len(),
                    forall|j: int| 0 <= j < k ==> #[trigger] nodes@[n as int].subcommands@[j] < nodes@.len(),
                decreases nodes@[n as int].subcommands@.len() - k,
            {
                if nodes[n].subcommands[k] >= nodes.len() {
                    return None;
                }
                k = k + 1;
            }
            n = n + 1;
        }
        Some(CommandTree { nodes })
    }
}

/// Whether a command answers to `tok`: its name or one of its aliases.
pub open spec fn answers_to(n: CommandNode, tok: Seq<char>) -> bool {
    n.name@ == tok || exists|k: int| 0 <= k < n.aliases@.len() && (#[trigger] n.aliases@[k])@ == tok
}

/// The first of the `children` that answers to `tok`.
pub open spec fn find_sub(nodes: Seq<CommandNode>, children: Seq<usize>, tok: Seq<char>) -> Option<int>
    decreases children.len(),
{
    if children.len() == 0 {
        None
    } else if answers_to(nodes[children[0] as int], tok) {
        Some(children[0] as int)
    } else {
        find_sub(nodes, children.drop_first(), tok)
    }
}

/// The global flags that are skipped when looking for subcommands.
pub open spec fn is_global_flag(tok: Seq<char>) -> bool {
    tok == "--source"@ || tok == "--internal"@ || tok == "-v"@ || tok == "--verbose"@
}

/// Walk the command line from position `i` at command `cur`: global flags
/// are skipped and each subcommand name descends into that subcommand. The
/// result is the position of the first other word, the active command and
/// the name of the last subcommand entered.
pub open spec fn walk(nodes: Seq<CommandNode>, args: Seq<Seq<char>>, i: int, cur: int, name: Option<Seq<char>>)
    -> (int, int, Option<Seq<char>>)
    decreases args.len() - i,
{
    if i < 0 || i >= args.len() {
        (i, cur, name)
    } else if is_global_flag(args[i]) {
        walk(nodes, args, i + 1, cur, name)
    } else {
        match find_sub(nodes, nodes[cur].subcommands@, args[i]) {
            Some(sc) => walk(nodes, args, i + 1, sc, Some(nodes[sc].name@)),
            None => (i, cur, name),
        }
    }
}

fn answers(n: &CommandNode, tok: &str) -> (b: bool)
    ensures
        b == answers_to(*n, tok@),
{
    if str_eq(n.name.as_str(), tok) {
        return true;
    }
    let mut k: usize = 0;
    while k < n.aliases.len()
        invariant
            k <= n.aliases@.len(),
            forall|j: int| 0 <= j < k ==> (#[trigger] n.aliases@[j])@ != tok@,
        decreases n.aliases@.len() - k,
    {
        if str_eq(n.aliases[k].as_str(), tok) {
            return true;
        }
        k = k + 1;
    }
    false
}

proof fn lemma_find_sub_step(nodes: Seq<CommandNode>, children: Seq<usize>, tok: Seq<char>, k: int)
    requires
        0 <= k <= children.len(),
        forall|j: int| 0 <= j < k ==> !answers_to(nodes[#[trigger] children[j] as int], tok),
    ensures
        k < children.len() && answers_to(nodes[children[k] as int], tok) ==> find_sub(nodes, children, tok) == Some(children[k] as int),
        k == children.len() ==> find_sub(nodes, children, tok) is None,
    decreases k,
{
    if k > 0 {
        let rest = children.drop_first();
        assert forall|j: int| 0 <= j < k - 1 implies !answers_to(nodes[#[trigger] rest[j] as int], tok) by {
            assert(rest[j] == children[j + 1]);
        }
        lemma_find_sub_step(nodes, rest, tok, k - 1);
    }
}

impl CommandTree {
    /// The subcommand of node `cur` that answers to `tok`.
    pub fn find_subcommand(&self, cur: usize, tok: &str) -> (res: Option<usize>)
        requires
            cur < self.spec_nodes().len(),
        ensures
            (match res { Some(i) => Some(i as int), None => None })
                == find_sub(self.spec_nodes(), self.spec_nodes()[cur as int].subcommands@, tok@),
            res matches Some(i) ==> i < self.spec_nodes().len(),
    {
        proof { use_type_invariant(self); }
        let children = &self.nodes[cur].subcommands;
        let mut k: usize = 0;
        while k < children.len()
            invariant
                cur < self.nodes@.len(),
                children@ == self.nodes@[cur as int].subcommands@,
                tree_closed(self.nodes@),
                k <= children@.len(),
                forall|j: int| 0 <= j < k ==> !answers_to(self.nodes@[#[trigger] children@[j] as int], tok@),
            decreases children@.len() - k,
        {
            let c = children[k];
            assert(c < self.nodes@.len());
            if answers(&self.nodes[c], tok) {
                proof { lemma_find_sub_step(self.nodes@, children@, tok@, k as int); }
                return Some(c);
            }
            k = k + 1;
        }
        proof { lemma_find_sub_step(self.nodes@, children@, tok@, k as int); }
        None
    }

    /// Walk the command line from its second word (the first is the
    /// program): the position of the first word that is neither a global
    /// flag nor a subcommand, the active command, and the name of the last
    /// subcommand entered.
    pub fn walk_subcommands(&self, args: &Vec<String>) -> (res: (usize, usize, Option<String>))
        ensures
            ({
                let w = walk(self.spec_nodes(), strings_view(args@), 1, 0, None);
                &&& res.0 as int == (if args@.len() == 0 { 1 } else { w.0 })
                &&& res.1 as int == w.1
                &&& (match res.2 { Some(s) => Some(s@), None => None }) == w.2
            }),
            res.1 < self.spec_nodes().len(),
    {
        proof { use_type_invariant(self); }
        let ghost sargs = strings_view(args@);
        let mut i: usize = 1;
        let mut cur: usize = 0;
        let mut name: Option<String> = None;
        if args.len() == 0 {
            proof {
                assert(walk(self.nodes@, sargs, 1, 0, None) == (1int, 0int, None::<Seq<char>>));
            }
            return (i, cur, name);
        }
        let mut done = false;
        while i < args.len() && !done
            invariant
                1 <= i <= args@.len(),
                sargs == strings_view(args@),
                cur < self.nodes@.len(),
                self.nodes@.len() > 0,
                tree_closed(self.nodes@),
                walk(self.nodes@, sargs, i as int, cur as int, match name { Some(s) => Some(s@), None => None })
                    == walk(self.nodes@, sargs, 1, 0, None),
                done ==> i < args@.len() && !is_global_flag(sargs[i as int])
                    && find_sub(self.nodes@, self.nodes@[cur as int].subcommands@, sargs[i as int]) is None,
            decreases args@.len() - i + (if done { 0int } else { 1int }),
        {
            let tok = args[i].as_str();
            assert(sargs[i as int] == tok@);
            if str_eq(tok, "--source") || str_eq(tok, "--internal") || str_eq(tok, "-v") || str_eq(tok, "--verbose") {
                i = i + 1;
            } else {
                match self.find_subcommand(cur, tok) {
                    Some(sc) => {
                        name = Some(self.nodes[sc].name.clone());
                        cur = sc;
                        i = i + 1;
                    },
                    None => {
                        done = true;
                    },
                }
            }
        }
        (i, cur, name)
    }
}

// ----------------------------------------------------------------------------
// Options that take values
// ----------------------------------------------------------------------------

/// Whether the option has the long name `name`.
pub open spec fn has_long(o: OptSpec, name: Seq<char>) -> bool {
    o.long matches Some(l) && l@ == name
}

/// Whether the option has the short name `c`.
pub open spec fn has_short(o: OptSpec, c: char) -> bool {
    o.short == Some(c)
}

/// Whether the last option of `opts` named `name` takes a value (`None` when
/// there is no such option).
pub open spec fn last_long(opts: Seq<OptSpec>, name: Seq<char>) -> Option<bool>
    decreases opts.len(),
{
    if opts.len() == 0 {
        None
    } else if has_long(opts.last(), name) {
        Some(opts.last().takes_value)
    } else {
        last_long(opts.drop_last(), name)
    }
}

/// Whether the first global option of `opts` named `name` takes a value.
pub open spec fn first_global_long(opts: Seq<OptSpec>, name: Seq<char>) -> Option<bool>
    decreases opts.len(),
{
    if opts.len() == 0 {
        None
    } else if opts[0].global && has_long(opts[0], name) {
        Some(opts[0].takes_value)
    } else {
        first_global_long(opts.drop_first(), name)
    }
}

/// Whether the last option of `opts` with short name `c` takes a value.
pub open spec fn last_short(opts: Seq<OptSpec>, c: char) -> Option<bool>
    decreases opts.len(),
{
    if opts.len() == 0 {
        None
    } else if has_short(opts.last(), c) {
        Some(opts.last().takes_value)
    } else {
        last_short(opts.drop_last(), c)
    }
}

/// Whether the first global option of `opts` with short name `c` takes a
/// value.
pub open spec fn first_global_short(opts: Seq<OptSpec>, c: char) -> Option<bool>
    decreases opts.len(),
{
    if opts.len() == 0 {
        None
    } else if opts[0].global && has_short(opts[0], c) {
        Some(opts[0].takes_value)
    } else {
        first_global_short(opts.drop_first(), c)
    }
}

/// Whether `--name` takes a value: an option of the active command decides
/// (the last one declared), else a global option of the root command (the
/// first one declared); unknown options take none.
pub open spec fn long_takes_value(active: Seq<OptSpec>, root: Seq<OptSpec>, name: Seq<char>) -> bool {
    match last_long(active, name) {
        Some(b) => b,
        None => match first_global_long(root, name) {
            Some(b) => b,
            None => false,
        },
    }
}

/// Whether `-c` takes a value, decided as for long options.
pub open spec fn short_takes_value(active: Seq<OptSpec>, root: Seq<OptSpec>, c: char) -> bool {
    match last_short(active, c) {
        Some(b) => b,
        None => match first_global_short(root, c) {
            Some(b) => b,
            None => false,
        },
    }
}

proof fn lemma_last_long(opts: Seq<OptSpec>, name: Seq<char>, k: int)
    requires
        0 <= k <= opts.len(),
        forall|j: int| k <= j < opts.len() ==> !has_long(#[trigger] opts[j], name),
    ensures
        k > 0 && has_long(opts[k - 1], name) ==> last_long(opts, name) == Some(opts[k - 1].takes_value),
        k == 0 ==> last_long(opts, name) is None,
    decreases opts.len() - k,
{
    if k < opts.len() {
        let d = opts.drop_last();
        assert forall|j: int| k <= j < d.len() implies !has_long(#[trigger] d[j], name) by {
            assert(d[j] == opts[j]);
        }
        lemma_last_long(d, name, k);
    }
}

proof fn lemma_last_short(opts: Seq<OptSpec>, c: char, k: int)
    requires
        0 <= k <= opts.len(),
        forall|j: int| k <= j < opts.len() ==> !has_short(#[trigger] opts[j], c),
    ensures
        k > 0 && has_short(opts[k - 1], c) ==> last_short(opts, c) == Some(opts[k - 1].takes_value),
        k == 0 ==> last_short(opts, c) is None,
    decreases opts.len() - k,
{
    if k < opts.len() {
        let d = opts.drop_last();
        assert forall|j: int| k <= j < d.len() implies !has_short(#[trigger] d[j], c) by {
            assert(d[j] == opts[j]);
        }
        lemma_last_short(d, c, k);
    }
}

proof fn lemma_first_global_long(opts: Seq<OptSpec>, name: Seq<char>, k: int)
    requires
        0 <= k <= opts.len(),
        forall|j: int| 0 <= j < k ==> !((#[trigger] opts[j]).global && has_long(opts[j], name)),
    ensures
        k < opts.len() && opts[k].global && has_long(opts[k], name) ==> first_global_long(opts, name) == Some(opts[k].takes_value),
        k == opts.len() ==> first_global_long(opts, name) is None,
    decreases k,
{
    if k > 0 {
        let d = opts.drop_first();
        assert forall|j: int| 0 <= j < k - 1 implies !((#[trigger] d[j]).global && has_long(d[j], name)) by {
            assert(d[j] == opts[j + 1]);
        }
        lemma_first_global_long(d, name, k - 1);
    }
}

proof fn lemma_first_global_short(opts: Seq<OptSpec>, c: char, k: int)
    requires
        0 <= k <= opts.len(),
        forall|j: int| 0 <= j < k ==> !((#[trigger] opts[j]).global && has_short(opts[j], c)),
    ensures
        k < opts.len() && opts[k].global && has_short(opts[k], c) ==> first_global_short(opts, c) == Some(opts[k].takes_value),
        k == opts.len() ==> first_global_short(opts, c) is None,
    decreases k,
{
    if k > 0 {
        let d = opts.drop_first();
        assert forall|j: int| 0 <= j < k - 1 implies !((#[trigger] d[j]).global && has_short(d[j], c)) by {
            assert(d[j] == opts[j + 1]);
        }
        lemma_first_global_short(d, c, k - 1);
    }
}

fn opt_has_long(o: &OptSpec, name: &str) -> (b: bool)
    ensures
        b == has_long(*o, name@),
{
    match &o.long {
        Some(l) => str_eq(l.as_str(), name),
        None => false,
    }
}

/// Whether `--name` takes a value for the active command's options
/// (`active`) and the root command's options (`root`).
pub fn long_option_takes_value(active: &Vec<OptSpec>, root: &Vec<OptSpec>, name: &str) -> (b: bool)
    ensures
        b == long_takes_value(active@, root@, name@),
{
    let mut k: usize = active.len();
    while k > 0
        invariant
            k <= active@.len(),
            forall|j: int| k <= j < active@.len() ==> !has_long(#[trigger] active@[j], name@),
        decreases k,
    {
        if opt_has_long(&active[k - 1], name) {
            proof { lemma_last_long(active@, name@, k as int); }
            return active[k - 1].takes_value;
        }
        k = k - 1;
    }
    proof { lemma_last_long(active@, name@, 0); }
    let mut j: usize = 0;
    while j < root.len()
        invariant
            j <= root@.len(),
            last_long(active@, name@) is None,
            forall|m: int| 0 <= m < j ==> !((#[trigger] root@[m]).global && has_long(root@[m], name@)),
        decreases root@.len() - j,
    {
        if root[j].global && opt_has_long(&root[j], name) {
            proof { lemma_first_global_long(root@, name@, j as int); }
            return root[j].takes_value;
        }
        j = j + 1;
    }
    proof { lemma_first_global_long(root@, name@, j as int); }
    false
}

/// Whether `-c` takes a value for the active command's options (`active`)
/// and the root command's options (`root`).
pub fn short_option_takes_value(active: &Vec<OptSpec>, root: &Vec<OptSpec>, c: char) -> (b: bool)
    ensures
        b == short_takes_value(active@, root@, c),
{
    let mut k: usize = active.len();
    while k > 0
        invariant
            k <= active@.len(),
            forall|j: int| k <= j < active@.len() ==> !has_short(#[trigger] active@[j], c),
        decreases k,
    {
        if active[k - 1].short == Some(c) {
            proof { lemma_last_short(active@, c, k as int); }
            return active[k - 1].takes_value;
        }
        k = k - 1;
    }
    proof { lemma_last_short(active@, c, 0); }
    let mut j: usize = 0;
    while j < root.len()
        invariant
            j <= root@.len(),
            last_short(active@, c) is None,
            forall|m: int| 0 <= m < j ==> !((#[trigger] root@[m]).global && has_short(root@[m], c)),
        decreases root@.len() - j,
    {
        if root[j].global && root[j].short == Some(c) {
            proof { lemma_first_global_short(root@, c, j as int); }
            return root[j].takes_value;
        }
        j = j + 1;
    }
    proof { lemma_first_global_short(root@, c, j as int); }
    false
}

// ----------------------------------------------------------------------------
// Positional argument state
// ----------------------------------------------------------------------------

/// The position in the short-option cluster `tok` (from `j` on) of the first
/// option that takes a value, or `tok.len()` when there is none.
pub open spec fn cluster_value_at(tok: Seq<char>, j: int, active: Seq<OptSpec>, root: Seq<OptSpec>) -> int
    decreases tok.len() - j,
{
    if j < 0 || j >= tok.len() {
        tok.len() as int
    } else if short_takes_value(active, root, tok[j]) {
        j
    } else {
        cluster_value_at(tok, j + 1, active, root)
    }
}

/// Whether the first positional argument is still being completed when the
/// words from `i` on are scanned (`accept` is false after `--`). Options
/// (`--long`, `--long=value`, short clusters `-abc`) are skipped along with
/// the values they take; the first other word is the positional, which is
/// still being completed only when it is the last word. A word that is the
/// value an option is waiting for means an option value is being completed.
pub open spec fn positional_pending(
    args: Seq<Seq<char>>,
    i: int,
    accept: bool,
    active: Seq<OptSpec>,
    root: Seq<OptSpec>,
) -> bool
    decreases args.len() - i,
{
    if i < 0 || i >= args.len() {
        true
    } else {
        let tok = args[i];
        if tok.len() == 0 {
            positional_pending(args, i + 1, accept, active, root)
        } else if accept && tok == "--"@ {
            positional_pending(args, i + 1, false, active, root)
        } else if accept && has_prefix(tok, "--"@) {
            let body = tok.skip(2);
            if find_char(body, '=') < body.len() {
                positional_pending(args, i + 1, accept, active, root)
            } else if long_takes_value(active, root, body) {
                if i == args.len() - 1 { false } else { positional_pending(args, i + 2, accept, active, root) }
            } else {
                positional_pending(args, i + 1, accept, active, root)
            }
        } else if accept && tok[0] == '-' && tok.len() > 1 {
            let k = cluster_value_at(tok, 1, active, root);
            if k >= tok.len() - 1 && k < tok.len() {
                if i == args.len() - 1 { false } else { positional_pending(args, i + 2, accept, active, root) }
            } else {
                positional_pending(args, i + 1, accept, active, root)
            }
        } else {
            i >= args.len() - 1
        }
    }
}

/// Whether `cs` holds `c` at or after position `from`.
fn has_char_from(cs: &Vec<char>, from: usize, c: char) -> (b: bool)
    requires
        from <= cs@.len(),
    ensures
        b == (find_char(cs@.skip(from as int), c) < cs@.len() - from),
{
    let ghost t = cs@.skip(from as int);
    let mut k: usize = from;
    while k < cs.len()
        invariant
            from <= k <= cs@.len(),
            t == cs@.skip(from as int),
            forall|m: int| 0 <= m < k - from ==> t[m] != c,
        decreases cs@.len() - k,
    {
        if cs[k] == c {
            proof { lemma_find_char_at(t, c, k - from); }
            return true;
        }
        k = k + 1;
    }
    proof { lemma_find_char_at(t, c, k - from); }
    false
}

fn cluster_value_index(cs: &Vec<char>, active: &Vec<OptSpec>, root: &Vec<OptSpec>) -> (k: usize)
    requires
        cs@.len() >= 1,
    ensures
        k as int == cluster_value_at(cs@, 1, active@, root@),
{
    let mut j: usize = 1;
    while j < cs.len()
        invariant
            1 <= j <= cs@.len(),
            cluster_value_at(cs@, j as int, active@, root@) == cluster_value_at(cs@, 1, active@, root@),
        decreases cs@.len() - j,
    {
        if short_option_takes_value(active, root, cs[j]) {
            return j;
        }
        j = j + 1;
    }
    j
}

impl CommandTree {
    /// Whether the first positional argument of the active command is still
    /// being completed, scanning the words from `start`.
    pub fn should_complete_positional_arg(&self, args: &Vec<String>, start: usize, active: usize) -> (b: bool)
        requires
            active < self.spec_nodes().len(),
        ensures
            b == positional_pending(strings_view(args@), start as int, true,
                self.spec_nodes()[active as int].opts@, self.spec_nodes()[0].opts@),
    {
        proof { use_type_invariant(self); }
        let ghost sargs = strings_view(args@);
        let act = &self.nodes[active].opts;
        let root = &self.nodes[0].opts;
        let ghost goal = positional_pending(sargs, start as int, true, act@, root@);
        let mut i: usize = start;
        let mut accept = true;
        while i < args.len()
            invariant
                sargs == strings_view(args@),
                act@ == self.nodes@[active as int].opts@,
                root@ == self.nodes@[0].opts@,
                goal == positional_pending(strings_view(args@), start as int, true, act@, root@),
                positional_pending(sargs, i as int, accept, act@, root@) == goal,
            decreases args@.len() - i,
        {
            let tok = args[i].as_str();
            assert(sargs[i as int] == tok@);
            let cs = chars_of(tok);
            proof { reveal_strlit("--"); }
            if cs.len() == 0 {
                i = i + 1;
            } else if accept && str_eq(tok, "--") {
                accept = false;
                i = i + 1;
            } else if accept && starts_with(tok, "--") {
                assert(tok@.skip(2) =~= cs@.skip(2));
                if has_char_from(&cs, 2, '=') {
                    i = i + 1;
                } else {
                    let body = string_of(&cs, 2, cs.len());
                    assert(body@ =~= tok@.skip(2));
                    if long_option_takes_value(act, root, body.as_str()) {
                        if i == args.len() - 1 {
                            return false;
                        }
                        i = i + 2;
                    } else {
                        i = i + 1;
                    }
                }
            } else if accept && cs[0] == '-' && cs.len() > 1 {
                let k = cluster_value_index(&cs, act, root);
                if k >= cs.len() - 1 && k < cs.len() {
                    if i == args.len() - 1 {
                        return false;
                    }
                    i = i + 2;
                } else {
                    i = i + 1;
                }
            } else {
                return i >= args.len() - 1;
            }
        }
        true
    }
}

// ----------------------------------------------------------------------------
// What is being completed
// ----------------------------------------------------------------------------

/// The first option of `opts` with the long name `name`.
pub open spec fn first_long(opts: Seq<OptSpec>, name: Seq<char>) -> Option<int>
    decreases opts.len(),
{
    if opts.len() == 0 {
        None
    } else if has_long(opts[0], name) {
        Some(0)
    } else {
        match first_long(opts.drop_first(), name) {
            Some(k) => Some(k + 1),
            None => None,
        }
    }
}

/// The first option of `opts` with the short name `c`.
pub open spec fn first_short(opts: Seq<OptSpec>, c: char) -> Option<int>
    decreases opts.len(),
{
    if opts.len() == 0 {
        None
    } else if has_short(opts[0], c) {
        Some(0)
    } else {
        match first_short(opts.drop_first(), c) {
            Some(k) => Some(k + 1),
            None => None,
        }
    }
}

/// The option that a flag word names (`--name`, or `-c` with a one-byte
/// `c`), paired with the value being typed.
pub open spec fn flag_target(opts: Seq<OptSpec>, flag: Seq<char>, value: Seq<char>) -> Option<(int, Seq<char>)> {
    if has_prefix(flag, "--"@) && first_long(opts, flag.skip(2)) is Some {
        Some((first_long(opts, flag.skip(2))->0, value))
    } else if flag.len() == 2 && flag[0] == '-' && (flag[1] as u32) < 128 && first_short(opts, flag[1]) is Some {
        Some((first_short(opts, flag[1])->0, value))
    } else {
        None
    }
}

/// The option whose value is being completed, as (command, option, prefix):
/// the last word is `--name=value` or `-c=value`, or the word before it is
/// `--name` or `-c`, for an option of the active command.
pub open spec fn option_target(nodes: Seq<CommandNode>, args: Seq<Seq<char>>) -> Option<(int, int, Seq<char>)> {
    if args.len() < 2 {
        None
    } else {
        let cur = walk(nodes, args, 1, 0, None).1;
        let opts = nodes[cur].opts@;
        let last = args.last();
        let prev = args[args.len() - 2];
        let eq = find_char(last, '=');
        let by_eq = if eq < last.len() { flag_target(opts, last.take(eq), last.skip(eq + 1)) } else { None };
        match by_eq {
            Some((o, v)) => Some((cur, o, v)),
            None => match flag_target(opts, prev, last) {
                Some((o, v)) => Some((cur, o, v)),
                None => None,
            },
        }
    }
}

/// Whether a word is one of the words of the command line.
pub open spec fn has_word(args: Seq<Seq<char>>, w: Seq<char>) -> bool {
    exists|k: int| 0 <= k < args.len() && args[k] == w
}

/// The branch prefix being completed, when the word under the cursor is the
/// branch argument of `switch` (unless a branch is being created), `push`,
/// `merge` or `remove`.
pub open spec fn branch_target(nodes: Seq<CommandNode>, args: Seq<Seq<char>>) -> Option<Seq<char>> {
    if args.len() < 2 {
        None
    } else {
        let w = walk(nodes, args, 1, 0, None);
        let pending = positional_pending(args, w.0, true, nodes[w.1].opts@, nodes[0].opts@);
        match w.2 {
            Some(sub) => if sub == "switch"@ {
                if !has_word(args, "--create"@) && !has_word(args, "-c"@) && pending { Some(args.last()) } else { None }
            } else if sub == "push"@ || sub == "merge"@ || sub == "remove"@ {
                if pending { Some(args.last()) } else { None }
            } else {
                None
            },
            None => None,
        }
    }
}

/// What the word under the cursor is.
pub enum CompletionTarget {
    /// The value of option `opt` of command `node`, typed so far as `prefix`.
    Option { node: usize, opt: usize, prefix: String },
    /// A branch argument, typed so far as the prefix.
    PositionalBranch(String),
    /// Nothing that needs special completion.
    Unknown,
}

fn find_long(opts: &Vec<OptSpec>, name: &str) -> (res: Option<usize>)
    ensures
        (match res { Some(k) => Some(k as int), None => None }) == first_long(opts@, name@),
        res matches Some(k) ==> k < opts@.len(),
{
    let mut k: usize = 0;
    assert(opts@.skip(0) =~= opts@);
    while k < opts.len()
        invariant
            k <= opts@.len(),
            first_long(opts@.skip(k as int), name@) is Some ==> first_long(opts@, name@)
                == Some(k + first_long(opts@.skip(k as int), name@)->0),
            first_long(opts@.skip(k as int), name@) is None ==> first_long(opts@, name@) is None,
        decreases opts@.len() - k,
    {
        assert(opts@.skip(k as int).drop_first() =~= opts@.skip(k + 1));
        if opt_has_long(&opts[k], name) {
            return Some(k);
        }
        k = k + 1;
    }
    None
}

fn find_short(opts: &Vec<OptSpec>, c: char) -> (res: Option<usize>)
    ensures
        (match res { Some(k) => Some(k as int), None => None }) == first_short(opts@, c),
        res matches Some(k) ==> k < opts@.len(),
{
    let mut k: usize = 0;
    assert(opts@.skip(0) =~= opts@);
    while k < opts.len()
        invariant
            k <= opts@.len(),
            first_short(opts@.skip(k as int), c) is Some ==> first_short(opts@, c)
                == Some(k + first_short(opts@.skip(k as int), c)->0),
            first_short(opts@.skip(k as int), c) is None ==> first_short(opts@, c) is None,
        decreases opts@.len() - k,
    {
        assert(opts@.skip(k as int).drop_first() =~= opts@.skip(k + 1));
        if opts[k].short == Some(c) {
            return Some(k);
        }
        k = k + 1;
    }
    None
}

fn flag_option(opts: &Vec<OptSpec>, flag: &str) -> (res: Option<usize>)
    ensures
        (match res { Some(k) => Some(k as int), None => None })
            == (match flag_target(opts@, flag@, Seq::empty()) { Some((o, v)) => Some(o), None => None }),
        res matches Some(k) ==> k < opts@.len(),
{
    proof { reveal_strlit("--"); }
    if let Some(long) = strip_prefix(flag, "--") {
        if let Some(k) = find_long(opts, long.as_str()) {
            return Some(k);
        }
    }
    let cs = chars_of(flag);
    if cs.len() == 2 && cs[0] == '-' && (cs[1] as u32) < 128 {
        return find_short(opts, cs[1]);
    }
    None
}

impl CommandTree {
    /// Detect what is being completed on the command line `args` (the
    /// program name first).
    pub fn detect_completion_target(&self, args: &Vec<String>) -> (res: CompletionTarget)
        ensures
            match res {
                CompletionTarget::Option { node, opt, prefix } =>
                    option_target(self.spec_nodes(), strings_view(args@)) == Some((node as int, opt as int, prefix@))
                        && node < self.spec_nodes().len() && opt < self.spec_nodes()[node as int].opts@.len(),
                CompletionTarget::PositionalBranch(p) =>
                    option_target(self.spec_nodes(), strings_view(args@)) is None
                        && branch_target(self.spec_nodes(), strings_view(args@)) == Some(p@),
                CompletionTarget::Unknown =>
                    option_target(self.spec_nodes(), strings_view(args@)) is None
                        && branch_target(self.spec_nodes(), strings_view(args@)) is None,
            },
    {
        proof { use_type_invariant(self); }
        let ghost sargs = strings_view(args@);
        if args.len() < 2 {
            return CompletionTarget::Unknown;
        }
        let (i, cur, name) = self.walk_subcommands(args);
        let opts = &self.nodes[cur].opts;
        let last = args[args.len() - 1].as_str();
        let prev = args[args.len() - 2].as_str();
        assert(sargs.last() == last@);
        assert(sargs[sargs.len() - 2] == prev@);
        let lc = chars_of(last);
        let mut eq: usize = 0;
        while eq < lc.len()
            invariant
                eq <= lc@.len(),
                forall|m: int| 0 <= m < eq ==> lc@[m] != '=',
            ensures
                eq <= lc@.len(),
                forall|m: int| 0 <= m < eq ==> lc@[m] != '=',
                eq < lc@.len() ==> lc@[eq as int] == '=',
            decreases lc@.len() - eq,
        {
            if lc[eq] == '=' {
                break;
            }
            eq = eq + 1;
        }
        proof { lemma_find_char_at(lc@, '=', eq as int); }
        if eq < lc.len() {
            let flag = string_of(&lc, 0, eq);
            let value = string_of(&lc, eq + 1, lc.len());
            assert(flag@ =~= last@.take(eq as int));
            assert(value@ =~= last@.skip(eq + 1));
            if let Some(o) = flag_option(opts, flag.as_str()) {
                return CompletionTarget::Option { node: cur, opt: o, prefix: value };
            }
        }
        if let Some(o) = flag_option(opts, prev) {
            return CompletionTarget::Option { node: cur, opt: o, prefix: last.to_owned() };
        }
        let pending = match &name {
            Some(sub) => {
                let s = sub.as_str();
                if str_eq(s, "switch") {
                    let mut has_create = false;
                    let mut k: usize = 0;
                    while k < args.len()
                        invariant
                            k <= args@.len(),
                            sargs == strings_view(args@),
                            has_create == exists|m: int| 0 <= m < k && (sargs[m] == "--create"@ || sargs[m] == "-c"@),
                        decreases args@.len() - k,
                    {
                        assert(sargs[k as int] == args@[k as int]@);
                        if str_eq(args[k].as_str(), "--create") || str_eq(args[k].as_str(), "-c") {
                            has_create = true;
                        }
                        k = k + 1;
                    }
                    proof {
                        assert(has_create == (has_word(sargs, "--create"@) || has_word(sargs, "-c"@)));
                    }
                    !has_create && self.should_complete_positional_arg(args, i, cur)
                } else if str_eq(s, "push") || str_eq(s, "merge") || str_eq(s, "remove") {
                    self.should_complete_positional_arg(args, i, cur)
                } else {
                    false
                }
            },
            None => false,
        };
        if pending {
            CompletionTarget::PositionalBranch(last.to_owned())
        } else {
            CompletionTarget::Unknown
        }
    }
}

// ----------------------------------------------------------------------------
// Candidates
// ----------------------------------------------------------------------------

/// A completion candidate, with help text for shells that show it.
pub struct Item {
    pub name: String,
    pub help: Option<String>,
}

/// The view of an item: (name, help).
pub open spec fn item_view(i: Item) -> (Seq<char>, Option<Seq<char>>) {
    (i.name@, match i.help { Some(h) => Some(h@), None => None })
}

/// The views of items.
pub open spec fn items_view(v: Seq<Item>) -> Seq<(Seq<char>, Option<Seq<char>>)> {
    v.map_values(|i: Item| item_view(i))
}

/// The candidates among possible values: those not hidden whose name starts
/// with `prefix`, in order, as (name, help).
pub open spec fn visible_items(values: Seq<PossibleValue>, prefix: Seq<char>) -> Seq<(Seq<char>, Option<Seq<char>>)>
    decreases values.len(),
{
    if values.len() == 0 {
        Seq::empty()
    } else {
        let rest = visible_items(values.drop_last(), prefix);
        let v = values.last();
        if !v.hidden && has_prefix(v.name@, prefix) {
            rest.push((v.name@, match v.help { Some(h) => Some(h@), None => None }))
        } else {
            rest
        }
    }
}

fn clone_opt(s: &Option<String>) -> (res: Option<String>)
    ensures
        (match res { Some(h) => Some(h@), None => None }) == (match *s { Some(h) => Some(h@), None => None }),
{
    match s {
        Some(h) => Some(h.clone()),
        None => None,
    }
}

/// The candidates offered for an argument with the given possible values.
pub fn items_from_values(values: &Vec<PossibleValue>, prefix: &str) -> (res: Vec<Item>)
    ensures
        items_view(res@) == visible_items(values@, prefix@),
{
    let mut out: Vec<Item> = Vec::new();
    let mut k: usize = 0;
    while k < values.len()
        invariant
            k <= values@.len(),
            items_view(out@) == visible_items(values@.take(k as int), prefix@),
        decreases values@.len() - k,
    {
        let v = &values[k];
        assert(values@.take(k + 1).drop_last() =~= values@.take(k as int));
        if !v.hidden && starts_with(v.name.as_str(), prefix) {
            let ghost before = out@;
            out.push(Item { name: v.name.clone(), help: clone_opt(&v.help) });
            assert(items_view(out@) =~= items_view(before).push(item_view(out@.last())));
        }
        k = k + 1;
    }
    assert(values@.take(values@.len() as int) =~= values@);
    out
}

/// The first positional argument with possible values.
pub open spec fn first_valued(ps: Seq<Vec<PossibleValue>>) -> Option<int>
    decreases ps.len(),
{
    if ps.len() == 0 {
        None
    } else if ps[0]@.len() > 0 {
        Some(0)
    } else {
        match first_valued(ps.drop_first()) {
            Some(k) => Some(k + 1),
            None => None,
        }
    }
}

/// What to offer for the word under the cursor.
pub enum CompletionPlan {
    /// The branches of the repository that start with `prefix` (only local
    /// branches when `local_only`).
    Branches { prefix: String, local_only: bool },
    /// These candidates.
    Items(Vec<Item>),
}

/// Whether branches are offered: for the `--base` option's value and for
/// branch arguments.
pub open spec fn plan_is_branches(nodes: Seq<CommandNode>, args: Seq<Seq<char>>) -> bool {
    match option_target(nodes, args) {
        Some((n, o, p)) => has_long(nodes[n].opts@[o], "base"@),
        None => branch_target(nodes, args) is Some,
    }
}

/// The candidates offered otherwise: the possible values of the option being
/// completed, or of the first positional argument of the active command that
/// has possible values, filtered by the word under the cursor (by nothing
/// when every word was a subcommand).
pub open spec fn plan_items(nodes: Seq<CommandNode>, args: Seq<Seq<char>>) -> Seq<(Seq<char>, Option<Seq<char>>)> {
    match option_target(nodes, args) {
        Some((n, o, p)) => visible_items(nodes[n].opts@[o].values@, p),
        None => {
            let w = walk(nodes, args, 1, 0, None);
            let prefix = if w.0 >= args.len() { Seq::empty() } else { args.last() };
            match first_valued(nodes[w.1].positionals@) {
                Some(k) => visible_items(nodes[w.1].positionals@[k]@, prefix),
                None => Seq::empty(),
            }
        },
    }
}

/// The word typed so far where branches are offered.
pub open spec fn branch_prefix(nodes: Seq<CommandNode>, args: Seq<Seq<char>>) -> Seq<char> {
    match option_target(nodes, args) {
        Some((n, o, p)) => p,
        None => match branch_target(nodes, args) {
            Some(p) => p,
            None => Seq::empty(),
        },
    }
}

/// Whether only local branches are offered: for the branch argument of
/// `remove`.
pub open spec fn branches_local_only(nodes: Seq<CommandNode>, args: Seq<Seq<char>>) -> bool {
    option_target(nodes, args) is None && walk(nodes, args, 1, 0, None).2 == Some("remove"@)
}

proof fn lemma_plan_items_positional(nodes: Seq<CommandNode>, args: Seq<Seq<char>>, k: int)
    requires
        option_target(nodes, args) is None,
        first_valued(nodes[walk(nodes, args, 1, 0, None).1].positionals@) == Some(k),
    ensures
        plan_items(nodes, args) == visible_items(nodes[walk(nodes, args, 1, 0, None).1].positionals@[k]@,
            if walk(nodes, args, 1, 0, None).0 >= args.len() { Seq::empty() } else { args.last() }),
{
}

impl CommandTree {
    /// Decide what to offer for the command line `args`.
    pub fn completion_plan(&self, args: &Vec<String>) -> (res: CompletionPlan)
        ensures
            res is Branches <==> plan_is_branches(self.spec_nodes(), strings_view(args@)),
            res matches CompletionPlan::Branches { prefix, local_only } ==>
                prefix@ == branch_prefix(self.spec_nodes(), strings_view(args@))
                && local_only == branches_local_only(self.spec_nodes(), strings_view(args@)),
            res matches CompletionPlan::Items(v) ==> items_view(v@) == plan_items(self.spec_nodes(), strings_view(args@)),
    {
        proof { use_type_invariant(self); }
        let ghost sargs = strings_view(args@);
        match self.detect_completion_target(args) {
            CompletionTarget::Option { node, opt, prefix } => {
                let o = &self.nodes[node].opts[opt];
                if opt_has_long(o, "base") {
                    CompletionPlan::Branches { prefix, local_only: false }
                } else {
                    CompletionPlan::Items(items_from_values(&o.values, prefix.as_str()))
                }
            },
            CompletionTarget::PositionalBranch(prefix) => {
                let (_, _, sub) = self.walk_subcommands(args);
                let local_only = match &sub {
                    Some(name) => str_eq(name.as_str(), "remove"),
                    None => false,
                };
                CompletionPlan::Branches { prefix, local_only }
            },
            CompletionTarget::Unknown => {
                let (i, cur, _) = self.walk_subcommands(args);
                let prefix: &str = if i >= args.len() { "" } else { args[args.len() - 1].as_str() };
                let ps = &self.nodes[cur].positionals;
                let ghost w = walk(self.nodes@, sargs, 1, 0, None);
                proof {
                    reveal_strlit("");
                    if i < args.len() {
                        assert(sargs.last() == args@[args@.len() - 1]@);
                    }
                }
                let ghost want_prefix = if w.0 >= sargs.len() { Seq::<char>::empty() } else { sargs.last() };
                assert(prefix@ == want_prefix);
                let mut k: usize = 0;
                assert(ps@.skip(0) =~= ps@);
                while k < ps.len()
                    invariant
                        sargs == strings_view(args@),
                        option_target(self.nodes@, sargs) is None,
                        branch_target(self.nodes@, sargs) is None,
                        w == walk(self.nodes@, sargs, 1, 0, None),
                        cur as int == w.1,
                        ps@ == self.nodes@[cur as int].positionals@,
                        prefix@ == want_prefix,
                        want_prefix == (if w.0 >= sargs.len() { Seq::<char>::empty() } else { sargs.last() }),
                        k <= ps@.len(),
                        first_valued(ps@.skip(k as int)) is Some ==> first_valued(ps@)
                            == Some(k + first_valued(ps@.skip(k as int))->0),
                        first_valued(ps@.skip(k as int)) is None ==> first_valued(ps@) is None,
                    decreases ps@.len() - k,
                {
                    assert(ps@.skip(k as int).drop_first() =~= ps@.skip(k + 1));
                    if ps[k].len() > 0 {
                        assert(ps@.skip(k as int)[0] == ps@[k as int]);
                        assert(first_valued(ps@) == Some(k as int));
                        let items = items_from_values(&ps[k], prefix);
                        proof { lemma_plan_items_positional(self.nodes@, sargs, k as int); }
                        return CompletionPlan::Items(items);
                    }
                    k = k + 1;
                }
                CompletionPlan::Items(Vec::new())
            },
        }
    }
}

// ----------------------------------------------------------------------------
// Value completers
// ----------------------------------------------------------------------------

/// The words of the command line being completed.
pub struct CompletionContext {
    pub args: Vec<String>,
}

impl CompletionContext {
    /// Whether one of the words is `needle`.
    pub fn contains(&self, needle: &str) -> (b: bool)
        ensures
            b == has_word(strings_view(self.args@), needle@),
    {
        let mut k: usize = 0;
        while k < self.args.len()
            invariant
                k <= self.args@.len(),
                forall|m: int| 0 <= m < k ==> strings_view(self.args@)[m] != needle@,
            decreases self.args@.len() - k,
        {
            if str_eq(self.args[k].as_str(), needle) {
                assert(strings_view(self.args@)[k as int] == needle@);
                return true;
            }
            k = k + 1;
        }
        false
    }
}

/// Whether branch completion is suppressed: a new branch is being created
/// (`--create` or `-c` is on the command line).
pub fn suppress_switch_branch_completion(ctx: Option<&CompletionContext>) -> (b: bool)
    ensures
        b == (ctx matches Some(c) && (has_word(strings_view(c.args@), "--create"@) || has_word(strings_view(c.args@), "-c"@))),
{
    match ctx {
        Some(c) => c.contains("--create") || c.contains("-c"),
        None => false,
    }
}

/// The hook names whose commands can be completed by name, in the order in
/// which they are looked for on the command line.
pub open spec fn hook_names() -> Seq<Seq<char>> {
    seq!["post-create"@, "post-start"@, "pre-commit"@, "pre-merge"@, "post-merge"@, "pre-remove"@]
}

/// The first hook name (in `hook_names` order) that is a word of the command
/// line.
pub open spec fn context_hook(args: Seq<Seq<char>>) -> Option<Seq<char>> {
    if has_word(args, "post-create"@) {
        Some("post-create"@)
    } else if has_word(args, "post-start"@) {
        Some("post-start"@)
    } else if has_word(args, "pre-commit"@) {
        Some("pre-commit"@)
    } else if has_word(args, "pre-merge"@) {
        Some("pre-merge"@)
    } else if has_word(args, "post-merge"@) {
        Some("post-merge"@)
    } else if has_word(args, "pre-remove"@) {
        Some("pre-remove"@)
    } else {
        None
    }
}

/// The hook whose command names are completed.
pub fn context_hook_type(ctx: Option<&CompletionContext>) -> (res: Option<&'static str>)
    ensures
        (match res { Some(h) => Some(h@), None => None })
            == (match ctx { Some(c) => context_hook(strings_view(c.args@)), None => None }),
{
    match ctx {
        Some(c) => {
            if c.contains("post-create") {
                Some("post-create")
            } else if c.contains("post-start") {
                Some("post-start")
            } else if c.contains("pre-commit") {
                Some("pre-commit")
            } else if c.contains("pre-merge") {
                Some("pre-merge")
            } else if c.contains("post-merge") {
                Some("post-merge")
            } else if c.contains("pre-remove") {
                Some("pre-remove")
            } else {
                None
            }
        },
        None => None,
    }
}

/// The candidates among `names` for the word being typed: none while an
/// option is typed (a word that is valid UTF-8 and starts with `-`), else the
/// names that start with the word (`current`, lossily decoded).
pub open spec fn candidates_for(names: Seq<Seq<char>>, current: Seq<char>, utf8: bool) -> Seq<Seq<char>> {
    if utf8 && has_prefix(current, "-"@) {
        Seq::empty()
    } else {
        names.filter(|n: Seq<char>| has_prefix(n, current))
    }
}

/// Filter completion candidates by the word being typed.
pub fn filter_candidates(names: &Vec<String>, current: &str, utf8: bool) -> (res: Vec<String>)
    ensures
        strings_view(res@) == candidates_for(strings_view(names@), current@, utf8),
{
    if utf8 && starts_with(current, "-") {
        let out: Vec<String> = Vec::new();
        assert(strings_view(out@) =~= Seq::<Seq<char>>::empty());
        return out;
    }
    let ghost all = strings_view(names@);
    let mut out: Vec<String> = Vec::new();
    let mut k: usize = 0;
    while k < names.len()
        invariant
            k <= names@.len(),
            all == strings_view(names@),
            strings_view(out@) == all.take(k as int).filter(|n: Seq<char>| has_prefix(n, current@)),
        decreases names@.len() - k,
    {
        proof {
            assert(all.take(k + 1).drop_last() =~= all.take(k as int));
            reveal(Seq::filter);
        }
        let ghost before = strings_view(out@);
        if starts_with(names[k].as_str(), current) {
            out.push(names[k].clone());
            assert(strings_view(out@) =~= before.push(names@[k as int]@));
        } else {
            assert(strings_view(out@) =~= before);
        }
        k = k + 1;
    }
    assert(all.take(names@.len() as int) =~= all);
    out
}

/// The names of the named commands of a hook, in order.
pub fn hook_command_names(names: &Vec<Option<String>>) -> (res: Vec<String>)
    ensures
        strings_view(res@) == names@.filter(|n: Option<String>| n is Some).map_values(|n: Option<String>| n->0@),
{
    let mut out: Vec<String> = Vec::new();
    let mut k: usize = 0;
    while k < names.len()
        invariant
            k <= names@.len(),
            strings_view(out@) == names@.take(k as int).filter(|n: Option<String>| n is Some).map_values(|n: Option<String>| n->0@),
        decreases names@.len() - k,
    {
        proof {
            assert(names@.take(k + 1).drop_last() =~= names@.take(k as int));
            reveal(Seq::filter);
        }
        let ghost before = strings_view(out@);
        let ghost fb = names@.take(k as int).filter(|n: Option<String>| n is Some);
        match &names[k] {
            Some(n) => {
                out.push(n.clone());
                assert(names@.take(k + 1).filter(|n: Option<String>| n is Some) =~= fb.push(names@[k as int]));
                assert(strings_view(out@) =~= before.push(names@[k as int]->0@));
            },
            None => {
                assert(names@.take(k + 1).filter(|n: Option<String>| n is Some) =~= fb);
            },
        }
        k = k + 1;
    }
    assert(names@.take(names@.len() as int) =~= names@);
    out
}

/// Where a branch lives.
pub enum BranchCategory {
    /// A branch with a worktree.
    Worktree,
    /// A local branch without a worktree.
    Local,
    /// A branch that exists only on the named remote.
    Remote(String),
}

/// A branch offered for completion, with the age of its last commit.
pub struct BranchEntry {
    pub name: String,
    pub category: BranchCategory,
    pub age: String,
}

/// The help text of a branch candidate: a marker for its category and the
/// age of its last commit (and the remote, for a remote-only branch).
pub open spec fn branch_help(b: BranchEntry) -> Seq<char> {
    match b.category {
        BranchCategory::Worktree => "+ "@ + b.age@,
        BranchCategory::Local => "/ "@ + b.age@,
        BranchCategory::Remote(r) => "\u{21e3} "@ + b.age@ + " "@ + r@,
    }
}

/// The branch candidates, as (name, help): none when completion is
/// suppressed; remote-only branches left out when asked.
pub open spec fn branch_items(branches: Seq<BranchEntry>, suppressed: bool, exclude_remote_only: bool)
    -> Seq<(Seq<char>, Option<Seq<char>>)> {
    if suppressed {
        Seq::empty()
    } else {
        branches.filter(|b: BranchEntry| !(exclude_remote_only && b.category is Remote))
            .map_values(|b: BranchEntry| (b.name@, Some(branch_help(b))))
    }
}

/// The branch candidates for a branch argument; `suppressed` is whether
/// completion is suppressed (a new branch is being created).
pub fn complete_branches(branches: &Vec<BranchEntry>, suppressed: bool, exclude_remote_only: bool) -> (res: Vec<Item>)
    ensures
        items_view(res@) == branch_items(branches@, suppressed, exclude_remote_only),
{
    let mut out: Vec<Item> = Vec::new();
    if suppressed {
        assert(items_view(out@) =~= Seq::<(Seq<char>, Option<Seq<char>>)>::empty());
        return out;
    }
    let ghost keep = |b: BranchEntry| !(exclude_remote_only && b.category is Remote);
    let ghost shown = |b: BranchEntry| (b.name@, Some(branch_help(b)));
    let mut k: usize = 0;
    while k < branches.len()
        invariant
            k <= branches@.len(),
            !suppressed,
            keep == (|b: BranchEntry| !(exclude_remote_only && b.category is Remote)),
            shown == (|b: BranchEntry| (b.name@, Some(branch_help(b)))),
            items_view(out@) == branches@.take(k as int).filter(keep).map_values(shown),
        decreases branches@.len() - k,
    {
        proof {
            assert(branches@.take(k + 1).drop_last() =~= branches@.take(k as int));
            reveal(Seq::filter);
        }
        let ghost fb = branches@.take(k as int).filter(keep);
        let ghost before = items_view(out@);
        let b = &branches[k];
        let remote_only = match &b.category {
            BranchCategory::Remote(_) => true,
            _ => false,
        };
        if !(exclude_remote_only && remote_only) {
            let help = match &b.category {
                BranchCategory::Worktree => {
                    let mut h = "+ ".to_owned();
                    push_str(&mut h, b.age.as_str());
                    h
                },
                BranchCategory::Local => {
                    let mut h = "/ ".to_owned();
                    push_str(&mut h, b.age.as_str());
                    h
                },
                BranchCategory::Remote(r) => {
                    let mut h = "\u{21e3} ".to_owned();
                    push_str(&mut h, b.age.as_str());
                    push_str(&mut h, " ");
                    push_str(&mut h, r.as_str());
                    h
                },
            };
            out.push(Item { name: b.name.clone(), help: Some(help) });
            assert(branches@.take(k + 1).filter(keep) =~= fb.push(branches@[k as int]));
            assert(items_view(out@) =~= before.push(shown(branches@[k as int])));
            assert(fb.push(branches@[k as int]).map_values(shown) =~= fb.map_values(shown).push(shown(branches@[k as int])));
        } else {
            assert(branches@.take(k + 1).filter(keep) =~= fb);
        }
        k = k + 1;
    }
    assert(branches@.take(branches@.len() as int) =~= branches@);
    out
}

/// The text printed for a branch completion: every branch on a line of its
/// own, in order and unfiltered (the shell filters by what is typed); nothing
/// when the branches could not be listed.
pub open spec fn listed_branches(branches: Seq<Seq<char>>) -> Seq<char>
    decreases branches.len(),
{
    if branches.len() == 0 {
        Seq::empty()
    } else {
        listed_branches(branches.drop_last()) + branches.last() + seq!['\n']
    }
}

/// The output of a branch completion (`branches` is `None` when listing the
/// branches failed).
pub fn branch_completion_output(branches: Option<&Vec<String>>) -> (res: String)
    ensures
        res@ == (match branches { Some(bs) => listed_branches(strings_view(bs@)), None => Seq::empty() }),
{
    let mut out = String::new();
    let bs = match branches {
        Some(bs) => bs,
        None => return out,
    };
    let ghost all = strings_view(bs@);
    let mut k: usize = 0;
    assert(all.take(0) =~= Seq::<Seq<char>>::empty());
    while k < bs.len()
        invariant
            k <= bs@.len(),
            all == strings_view(bs@),
            out@ == listed_branches(all.take(k as int)),
        decreases bs@.len() - k,
    {
        assert(all.take(k + 1).drop_last() =~= all.take(k as int));
        assert(all.take(k + 1).last() == bs@[k as int]@);
        push_str(&mut out, bs[k].as_str());
        crate::text::push_char(&mut out, '\n');
        k = k + 1;
    }
    assert(all.take(bs@.len() as int) =~= all);
    out
}

/// The two fields of a line of `git for-each-ref` output whose format puts
/// a tab between them: the text before the first tab and the text after it
/// (empty when there is no tab).
pub open spec fn ref_fields(l: Seq<char>) -> (Seq<char>, Seq<char>) {
    match split_once_at(l, '\t') {
        Some((a, b)) => (a, b),
        None => (l, Seq::empty()),
    }
}

/// The fields of each line of `git for-each-ref` output.
pub open spec fn ref_lines(output: Seq<char>) -> Seq<(Seq<char>, Seq<char>)> {
    lines(output).map_values(|l: Seq<char>| ref_fields(l))
}

/// Read the lines of `git for-each-ref` output into their two fields.
pub fn parse_ref_lines(output: &str) -> (res: Vec<(String, String)>)
    ensures
        pairs_view(res@) == ref_lines(output@),
{
    let ls = split_lines(output);
    let ghost all = lines(output@);
    let mut out: Vec<(String, String)> = Vec::new();
    let mut k: usize = 0;
    while k < ls.len()
        invariant
            k <= ls@.len() == all.len(),
            all == lines(output@),
            forall|m: int| 0 <= m < ls@.len() ==> #[trigger] ls@[m]@ == all[m],
            pairs_view(out@) == all.take(k as int).map_values(|l: Seq<char>| ref_fields(l)),
        decreases ls@.len() - k,
    {
        let fields: (String, String) = match split_once_char(ls[k].as_str(), '\t') {
            Some((a, b)) => (a, b),
            None => (ls[k].clone(), String::new()),
        };
        let ghost before = pairs_view(out@);
        out.push(fields);
        assert(pairs_view(out@) =~= before.push(ref_fields(all[k as int])));
        assert(all.take(k + 1).map_values(|l: Seq<char>| ref_fields(l))
            =~= all.take(k as int).map_values(|l: Seq<char>| ref_fields(l)).push(ref_fields(all[k as int])));
        k = k + 1;
    }
    assert(all.take(all.len() as int) =~= all);
    out
}

/// A branch candidate as values: (name, in a worktree, remote of a
/// remote-only branch, age).
pub open spec fn entry_view(b: BranchEntry) -> (Seq<char>, bool, Option<Seq<char>>, Seq<char>) {
    (b.name@, b.category is Worktree, match b.category {
        BranchCategory::Remote(r) => Some(r@),
        _ => None,
    }, b.age@)
}

/// The views of branch candidates.
pub open spec fn entries_view(bs: Seq<BranchEntry>) -> Seq<(Seq<char>, bool, Option<Seq<char>>, Seq<char>)> {
    bs.map_values(|b: BranchEntry| entry_view(b))
}

/// A local branch (name, age) as a candidate: in a worktree when one of the
/// worktrees has it checked out.
pub open spec fn local_entry(b: (Seq<char>, Seq<char>), worktree_branches: Seq<Seq<char>>)
    -> (Seq<char>, bool, Option<Seq<char>>, Seq<char>)
{
    (b.0, worktree_branches.contains(b.0), None, b.1)
}

/// The local branches (name, age) as candidates, in order.
pub fn local_branch_entries(locals: &Vec<(String, String)>, worktree_branches: &Vec<String>) -> (res: Vec<BranchEntry>)
    ensures
        entries_view(res@) == pairs_view(locals@).map_values(
            |b: (Seq<char>, Seq<char>)| local_entry(b, strings_view(worktree_branches@))),
{
    let ghost wts = strings_view(worktree_branches@);
    let ghost ls = pairs_view(locals@);
    let mut out: Vec<BranchEntry> = Vec::new();
    let mut k: usize = 0;
    while k < locals.len()
        invariant
            k <= locals@.len(),
            wts == strings_view(worktree_branches@),
            ls == pairs_view(locals@),
            entries_view(out@) == ls.take(k as int).map_values(|b: (Seq<char>, Seq<char>)| local_entry(b, wts)),
        decreases locals@.len() - k,
    {
        let name = &locals[k].0;
        let mut in_worktree = false;
        let mut j: usize = 0;
        while j < worktree_branches.len()
            invariant
                j <= worktree_branches@.len(),
                wts == strings_view(worktree_branches@),
                in_worktree <==> exists|m: int| 0 <= m < j && wts[m] == name@,
            decreases worktree_branches@.len() - j,
        {
            assert(wts[j as int] == worktree_branches@[j as int]@);
            if str_eq(worktree_branches[j].as_str(), name.as_str()) {
                in_worktree = true;
            }
            j = j + 1;
        }
        let entry = BranchEntry {
            name: name.clone(),
            category: if in_worktree { BranchCategory::Worktree } else { BranchCategory::Local },
            age: locals[k].1.clone(),
        };
        let ghost before = entries_view(out@);
        out.push(entry);
        assert(entries_view(out@) =~= before.push(local_entry(ls[k as int], wts)));
        assert(ls.take(k + 1).map_values(|b: (Seq<char>, Seq<char>)| local_entry(b, wts))
            =~= ls.take(k as int).map_values(|b: (Seq<char>, Seq<char>)| local_entry(b, wts)).push(local_entry(ls[k as int], wts)));
        k = k + 1;
    }
    assert(ls.take(ls.len() as int) =~= ls);
    out
}

/// Whether a remote branch (`remote/branch`, age) is offered: it names a
/// remote and a branch other than `HEAD` that has no local branch.
pub open spec fn remote_only(r: (Seq<char>, Seq<char>), local_names: Seq<Seq<char>>) -> bool {
    match split_once_at(r.0, '/') {
        Some((_, b)) => b != "HEAD"@ && !local_names.contains(b),
        None => false,
    }
}

/// A remote-only branch as a candidate.
pub open spec fn remote_entry(r: (Seq<char>, Seq<char>)) -> (Seq<char>, bool, Option<Seq<char>>, Seq<char>) {
    match split_once_at(r.0, '/') {
        Some((remote, b)) => (b, false, Some(remote), r.1),
        None => (r.0, false, Some(Seq::empty()), r.1),
    }
}

/// The remote branches (`remote/branch`, age) that have no local branch, as
/// candidates, in order.
pub fn remote_only_entries(remotes: &Vec<(String, String)>, local_names: &Vec<String>) -> (res: Vec<BranchEntry>)
    ensures
        entries_view(res@) == pairs_view(remotes@).filter(
            |r: (Seq<char>, Seq<char>)| remote_only(r, strings_view(local_names@))).map_values(
            |r: (Seq<char>, Seq<char>)| remote_entry(r)),
{
    let ghost locs = strings_view(local_names@);
    let ghost rs = pairs_view(remotes@);
    let ghost keep = |r: (Seq<char>, Seq<char>)| remote_only(r, locs);
    let ghost shown = |r: (Seq<char>, Seq<char>)| remote_entry(r);
    let mut out: Vec<BranchEntry> = Vec::new();
    let mut k: usize = 0;
    while k < remotes.len()
        invariant
            k <= remotes@.len(),
            locs == strings_view(local_names@),
            rs == pairs_view(remotes@),
            keep == (|r: (Seq<char>, Seq<char>)| remote_only(r, locs)),
            shown == (|r: (Seq<char>, Seq<char>)| remote_entry(r)),
            entries_view(out@) == rs.take(k as int).filter(keep).map_values(shown),
        decreases remotes@.len() - k,
    {
        proof {
            assert(rs.take(k + 1).drop_last() =~= rs.take(k as int));
            reveal(Seq::filter);
        }
        let ghost fb = rs.take(k as int).filter(keep);
        let ghost before = entries_view(out@);
        match split_once_char(remotes[k].0.as_str(), '/') {
            Some((remote, branch)) => {
                let mut local = false;
                let mut j: usize = 0;
                while j < local_names.len()
                    invariant
                        j <= local_names@.len(),
                        locs == strings_view(local_names@),
                        local <==> exists|m: int| 0 <= m < j && locs[m] == branch@,
                    decreases local_names@.len() - j,
                {
                    assert(locs[j as int] == local_names@[j as int]@);
                    if str_eq(local_names[j].as_str(), branch.as_str()) {
                        local = true;
                    }
                    j = j + 1;
                }
                if !str_eq(branch.as_str(), "HEAD") && !local {
                    out.push(BranchEntry { name: branch, category: BranchCategory::Remote(remote), age: remotes[k].1.clone() });
                    assert(rs.take(k + 1).filter(keep) =~= fb.push(rs[k as int]));
                    assert(entries_view(out@) =~= before.push(shown(rs[k as int])));
                    assert(fb.push(rs[k as int]).map_values(shown) =~= fb.map_values(shown).push(shown(rs[k as int])));
                } else {
                    assert(rs.take(k + 1).filter(keep) =~= fb);
                }
            },
            None => {
                assert(rs.take(k + 1).filter(keep) =~= fb);
            },
        }
        k = k + 1;
    }
    assert(rs.take(rs.len() as int) =~= rs);
    out
}

/// The candidates among `items` for the word being typed: none while an
/// option is typed (a word that is valid UTF-8 and starts with `-`), else
/// those whose name starts with the word.
pub open spec fn items_for(items: Seq<(Seq<char>, Option<Seq<char>>)>, current: Seq<char>, utf8: bool)
    -> Seq<(Seq<char>, Option<Seq<char>>)>
{
    if utf8 && has_prefix(current, "-"@) {
        Seq::empty()
    } else {
        items.filter(|i: (Seq<char>, Option<Seq<char>>)| has_prefix(i.0, current))
    }
}

/// Filter candidates by the word being typed.
pub fn filter_items(items: &Vec<Item>, current: &str, utf8: bool) -> (res: Vec<Item>)
    ensures
        items_view(res@) == items_for(items_view(items@), current@, utf8),
{
    let mut out: Vec<Item> = Vec::new();
    if utf8 && starts_with(current, "-") {
        assert(items_view(out@) =~= Seq::<(Seq<char>, Option<Seq<char>>)>::empty());
        return out;
    }
    let ghost all = items_view(items@);
    let ghost keep = |i: (Seq<char>, Option<Seq<char>>)| has_prefix(i.0, current@);
    let mut k: usize = 0;
    while k < items.len()
        invariant
            k <= items@.len(),
            all == items_view(items@),
            keep == (|i: (Seq<char>, Option<Seq<char>>)| has_prefix(i.0, current@)),
            items_view(out@) == all.take(k as int).filter(keep),
        decreases items@.len() - k,
    {
        proof {
            assert(all.take(k + 1).drop_last() =~= all.take(k as int));
            reveal(Seq::filter);
        }
        let ghost before = items_view(out@);
        if starts_with(items[k].name.as_str(), current) {
            out.push(Item { name: items[k].name.clone(), help: crate::git::clone_opt_string(&items[k].help) });
            assert(items_view(out@) =~= before.push(all[k as int]));
        } else {
            assert(items_view(out@) =~= before);
        }
        k = k + 1;
    }
    assert(all.take(items@.len() as int) =~= all);
    out
}

// ----------------------------------------------------------------------------
// Which command's help to show
// ----------------------------------------------------------------------------

/// Whether a command is called `tok` by name or by a visible alias.
pub open spec fn visibly_named(n: CommandNode, tok: Seq<char>) -> bool {
    n.name@ == tok || exists|k: int| 0 <= k < n.visible_aliases@.len() && (#[trigger] n.visible_aliases@[k])@ == tok
}

/// The first of the `children` called `tok` by name or visible alias.
pub open spec fn find_visible(nodes: Seq<CommandNode>, children: Seq<usize>, tok: Seq<char>) -> Option<int>
    decreases children.len(),
{
    if children.len() == 0 {
        None
    } else if visibly_named(nodes[children[0] as int], tok) {
        Some(children[0] as int)
    } else {
        find_visible(nodes, children.drop_first(), tok)
    }
}

/// The subcommand path named on the command line from position `i` at
/// command `cur`: scanning stops at `-h`/`--help` or at a word that is not
/// a subcommand; a flag is skipped together with the next word when that
/// word is neither a flag nor a subcommand (taken as the flag's value).
pub open spec fn help_path(nodes: Seq<CommandNode>, args: Seq<Seq<char>>, i: int, cur: int) -> Seq<Seq<char>>
    decreases args.len() - i,
{
    if i < 0 || i >= args.len() {
        Seq::empty()
    } else {
        let tok = args[i];
        if tok == "-h"@ || tok == "--help"@ {
            Seq::empty()
        } else if has_prefix(tok, "-"@) {
            if i + 1 < args.len() && !has_prefix(args[i + 1], "-"@)
                && find_visible(nodes, nodes[cur].subcommands@, args[i + 1]) is None {
                help_path(nodes, args, i + 2, cur)
            } else {
                help_path(nodes, args, i + 1, cur)
            }
        } else {
            match find_visible(nodes, nodes[cur].subcommands@, tok) {
                Some(sc) => seq![tok] + help_path(nodes, args, i + 1, sc),
                None => Seq::empty(),
            }
        }
    }
}

fn answers_visibly(n: &CommandNode, tok: &str) -> (b: bool)
    ensures
        b == visibly_named(*n, tok@),
{
    if str_eq(n.name.as_str(), tok) {
        return true;
    }
    let mut k: usize = 0;
    while k < n.visible_aliases.len()
        invariant
            k <= n.visible_aliases@.len(),
            forall|j: int| 0 <= j < k ==> (#[trigger] n.visible_aliases@[j])@ != tok@,
        decreases n.visible_aliases@.len() - k,
    {
        if str_eq(n.visible_aliases[k].as_str(), tok) {
            return true;
        }
        k = k + 1;
    }
    false
}

proof fn lemma_find_visible_step(nodes: Seq<CommandNode>, children: Seq<usize>, tok: Seq<char>, k: int)
    requires
        0 <= k <= children.len(),
        forall|j: int| 0 <= j < k ==> !visibly_named(nodes[#[trigger] children[j] as int], tok),
    ensures
        k < children.len() && visibly_named(nodes[children[k] as int], tok) ==> find_visible(nodes, children, tok) == Some(children[k] as int),
        k == children.len() ==> find_visible(nodes, children, tok) is None,
    decreases k,
{
    if k > 0 {
        let rest = children.drop_first();
        assert forall|j: int| 0 <= j < k - 1 implies !visibly_named(nodes[#[trigger] rest[j] as int], tok) by {
            assert(rest[j] == children[j + 1]);
        }
        lemma_find_visible_step(nodes, rest, tok, k - 1);
    }
}

impl CommandTree {
    /// The subcommand of node `cur` called `tok` by name or visible alias.
    pub fn find_visible_subcommand(&self, cur: usize, tok: &str) -> (res: Option<usize>)
        requires
            cur < self.spec_nodes().len(),
        ensures
            (match res { Some(i) => Some(i as int), None => None })
                == find_visible(self.spec_nodes(), self.spec_nodes()[cur as int].subcommands@, tok@),
            res matches Some(i) ==> i < self.spec_nodes().len(),
    {
        proof { use_type_invariant(self); }
        let children = &self.nodes[cur].subcommands;
        let mut k: usize = 0;
        while k < children.len()
            invariant
                cur < self.nodes@.len(),
                children@ == self.nodes@[cur as int].subcommands@,
                tree_closed(self.nodes@),
                k <= children@.len(),
                forall|j: int| 0 <= j < k ==> !visibly_named(self.nodes@[#[trigger] children@[j] as int], tok@),
            decreases children@.len() - k,
        {
            let c = children[k];
            assert(c < self.nodes@.len());
            if answers_visibly(&self.nodes[c], tok) {
                proof { lemma_find_visible_step(self.nodes@, children@, tok@, k as int); }
                return Some(c);
            }
            k = k + 1;
        }
        proof { lemma_find_visible_step(self.nodes@, children@, tok@, k as int); }
        None
    }

    /// The path of subcommand names whose help is asked for on the command
    /// line `args` (the program name first).
    pub fn extract_subcommand_path(&self, args: &Vec<String>) -> (res: Vec<String>)
        ensures
            strings_view(res@) == help_path(self.spec_nodes(), strings_view(args@), 1, 0),
    {
        proof { use_type_invariant(self); }
        let ghost sargs = strings_view(args@);
        let ghost goal = help_path(self.nodes@, sargs, 1, 0);
        let mut path: Vec<String> = Vec::new();
        let mut i: usize = 1;
        let mut cur: usize = 0;
        proof { reveal_strlit("-"); reveal_strlit("-h"); reveal_strlit("--help"); }
        while i < args.len()
            invariant
                sargs == strings_view(args@),
                cur < self.nodes@.len(),
                self.nodes@.len() > 0,
                tree_closed(self.nodes@),
                goal == help_path(self.nodes@, sargs, 1, 0),
                strings_view(path@) + help_path(self.nodes@, sargs, i as int, cur as int) == goal,
            decreases args@.len() - i,
        {
            let tok = args[i].as_str();
            assert(sargs[i as int] == tok@);
            if str_eq(tok, "-h") || str_eq(tok, "--help") {
                assert(strings_view(path@) =~= goal);
                return path;
            }
            if starts_with(tok, "-") {
                let skip_value = if i + 1 < args.len() {
                    let next = args[i + 1].as_str();
                    assert(sargs[i + 1] == next@);
                    !starts_with(next, "-") && self.find_visible_subcommand(cur, next).is_none()
                } else {
                    false
                };
                i = if skip_value { i + 2 } else { i + 1 };
            } else {
                match self.find_visible_subcommand(cur, tok) {
                    Some(sc) => {
                        let ghost before = strings_view(path@);
                        path.push(tok.to_owned());
                        assert(strings_view(path@) =~= before.push(tok@));
                        assert(before + (seq![tok@] + help_path(self.nodes@, sargs, i + 1, sc as int))
                            =~= before.push(tok@) + help_path(self.nodes@, sargs, i + 1, sc as int));
                        cur = sc;
                        i = i + 1;
                    },
                    None => {
                        assert(strings_view(path@) =~= goal);
                        return path;
                    },
                }
            }
        }
        assert(strings_view(path@) =~= goal);
        path
    }
}

/// While a branch is being created (`-c` or `--create` anywhere on the
/// line), completing `switch` never offers existing branches.
pub proof fn lemma_create_offers_no_branches(nodes: Seq<CommandNode>, args: Seq<Seq<char>>)
    requires
        walk(nodes, args, 1, 0, None).2 == Some("switch"@),
        exists|k: int| 0 <= k < args.len() && (args[k] == "-c"@ || args[k] == "--create"@),
    ensures
        branch_target(nodes, args) is None,
{
    let k = choose|k: int| 0 <= k < args.len() && (args[k] == "-c"@ || args[k] == "--create"@);
    if args[k] == "-c"@ {
        assert(has_word(args, "-c"@));
    } else {
        assert(has_word(args, "--create"@));
    }
}

} // verus!
