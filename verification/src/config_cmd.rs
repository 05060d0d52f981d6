//! The `config` commands: the commented-out example configuration, where the
//! global configuration lives, branch status keys, and the shell integration
//! status report.

use vstd::prelude::*;
use crate::configure_shell::{shell_name, ConfigAction, Shell};
use crate::styling::{
    bo, bold_style, dim, dim_style, emoji_message, format_hint, format_with_gutter, gutter_lines, paint, parts, pl,
    styled_text, success_message, success_msg, PartKind, TextStyle, HINT_EMOJI, INFO_EMOJI, WARNING_EMOJI,
};
use crate::text::{
    decimal, decimal_string, ends_with, has_suffix, is_whitespace, is_ws, join_path, join_seqs, join_strings, lines,
    lemma_lines_appended, lemma_lines_cons, lemma_find_char, lemma_find_char_at, find_char, path_join, push_char,
    push_str, split_lines, strip_cr, strings_view, trim, trim_str,
};

verus! {

// ----------------------------------------------------------------------------
// The example configuration, commented out
// ----------------------------------------------------------------------------

/// A line of the example configuration as written to disk: non-empty lines
/// that are not comments get a `# ` in front.
pub open spec fn commented_line(l: Seq<char>) -> Seq<char> {
    if l.len() > 0 && l[0] != '#' { "# "@ + l } else { l }
}

/// The lines of `content`, each commented out.
pub open spec fn commented_lines(ls: Seq<Seq<char>>) -> Seq<Seq<char>> {
    ls.map_values(|l: Seq<char>| commented_line(l))
}

/// The configuration with every non-empty, non-comment line commented out,
/// keeping a final newline.
pub open spec fn commented_out(content: Seq<char>) -> Seq<char> {
    join_seqs(commented_lines(lines(content)), seq!['\n'])
        + (if has_suffix(content, seq!['\n']) { seq!['\n'] } else { Seq::empty() })
}

/// Comment out all non-comment, non-empty lines, for writing the example
/// configuration to disk.
pub fn comment_out_config(content: &str) -> (res: String)
    ensures
        res@ == commented_out(content@),
{
    let ls = split_lines(content);
    let ghost lv = lines(content@);
    let mut out: Vec<String> = Vec::new();
    let mut k: usize = 0;
    while k < ls.len()
        invariant
            k <= ls@.len(),
            ls@.len() == lv.len(),
            lv == lines(content@),
            forall|m: int| 0 <= m < ls@.len() ==> #[trigger] ls@[m]@ == lv[m],
            strings_view(out@) == commented_lines(lv.take(k as int)),
        decreases ls@.len() - k,
    {
        let l = ls[k].as_str();
        let cs = crate::text::chars_of(l);
        let line = if cs.len() > 0 && cs[0] != '#' {
            let mut c = "# ".to_owned();
            push_str(&mut c, l);
            c
        } else {
            l.to_owned()
        };
        let ghost before = strings_view(out@);
        out.push(line);
        proof {
            assert(strings_view(out@) =~= before.push(commented_line(lv[k as int])));
            assert(commented_lines(lv.take(k + 1)) =~= commented_lines(lv.take(k as int)).push(commented_line(lv[k as int])));
        }
        k = k + 1;
    }
    assert(lv.take(ls@.len() as int) =~= lv);
    let mut res = join_strings(&out, "\n");
    proof { reveal_strlit("\n"); }
    assert("\n"@ =~= seq!['\n']);
    if ends_with(content, "\n") {
        push_char(&mut res, '\n');
    }
    res
}

/// A line as `lines` gives it back: no newline, no trailing carriage return.
pub open spec fn plain_line(l: Seq<char>) -> bool {
    !l.contains('\n') && strip_cr(l) == l
}

/// The lines of a string hold no newline.
proof fn lemma_lines_no_newline(s: Seq<char>)
    ensures
        forall|i: int| 0 <= i < lines(s).len() ==> !(#[trigger] lines(s)[i]).contains('\n'),
    decreases s.len(),
{
    if s.len() > 0 {
        lemma_find_char(s, '\n');
        let k = find_char(s, '\n');
        if k >= s.len() {
            assert(!s.contains('\n'));
        } else {
            let head = strip_cr(s.take(k));
            assert(!head.contains('\n')) by {
                assert forall|j: int| 0 <= j < head.len() implies head[j] != '\n' by {
                    assert(head[j] == s[j]);
                }
            }
            lemma_lines_no_newline(s.skip(k + 1));
            assert forall|i: int| 0 <= i < lines(s).len() implies !(#[trigger] lines(s)[i]).contains('\n') by {
                if i > 0 {
                    assert(lines(s)[i] == lines(s.skip(k + 1))[i - 1]);
                }
            }
        }
    }
}

/// A join of two or more lines starts with the first line and a separator.
proof fn lemma_join_front(xs: Seq<Seq<char>>, sep: Seq<char>)
    requires
        xs.len() >= 2,
    ensures
        join_seqs(xs, sep) == xs[0] + sep + join_seqs(xs.drop_first(), sep),
    decreases xs.len(),
{
    if xs.len() == 2 {
        assert(xs.drop_last().len() == 1);
        assert(xs.drop_first().len() == 1);
        assert(join_seqs(xs.drop_first(), sep) == xs.drop_first()[0]);
        assert(join_seqs(xs.drop_last(), sep) == xs.drop_last()[0]);
        assert(xs.drop_first()[0] == xs[1]);
        assert(xs.drop_last()[0] == xs[0]);
        assert(join_seqs(xs, sep) == join_seqs(xs.drop_last(), sep) + sep + xs.last());
    } else {
        let a = xs.drop_last();
        let b = xs.drop_first();
        lemma_join_front(a, sep);
        assert(a.drop_first() =~= b.drop_last());
        assert(a[0] == xs[0]);
        assert(b.last() == xs.last());
        let mid = join_seqs(b.drop_last(), sep);
        assert(join_seqs(xs, sep) == join_seqs(a, sep) + sep + xs.last());
        assert(join_seqs(a, sep) == xs[0] + sep + mid);
        assert(join_seqs(b, sep) == mid + sep + xs.last());
        assert(xs[0] + sep + mid + sep + xs.last() =~= xs[0] + sep + (mid + sep + xs.last()));
    }
}

/// Lines joined by newlines, with a final newline, read back as the lines.
proof fn lemma_lines_of_joined(xs: Seq<Seq<char>>)
    requires
        xs.len() >= 1,
        forall|i: int| 0 <= i < xs.len() ==> plain_line(#[trigger] xs[i]),
    ensures
        lines(join_seqs(xs, seq!['\n']) + seq!['\n']) == xs,
    decreases xs.len(),
{
    let nl = seq!['\n'];
    assert(plain_line(xs[0]));
    if xs.len() == 1 {
        lemma_lines_cons(xs[0], Seq::empty());
        assert(xs[0] + nl =~= xs[0] + nl + Seq::<char>::empty());
        assert(lines(Seq::<char>::empty()) =~= Seq::<Seq<char>>::empty());
        assert(seq![xs[0]] =~= xs);
    } else {
        let rest = xs.drop_first();
        lemma_join_front(xs, nl);
        assert forall|i: int| 0 <= i < rest.len() implies plain_line(#[trigger] rest[i]) by {
            assert(rest[i] == xs[i + 1]);
        }
        lemma_lines_of_joined(rest);
        lemma_lines_cons(xs[0], join_seqs(rest, nl) + nl);
        assert(join_seqs(xs, nl) + nl =~= xs[0] + nl + (join_seqs(rest, nl) + nl));
        assert(seq![xs[0]] + rest =~= xs);
    }
}

/// Lines joined by newlines, the last one not empty and not ended by a
/// newline, read back as the lines.
proof fn lemma_lines_of_joined_open(xs: Seq<Seq<char>>)
    requires
        xs.len() >= 1,
        xs.last().len() > 0,
        !xs.last().contains('\n'),
        forall|i: int| 0 <= i < xs.len() - 1 ==> plain_line(#[trigger] xs[i]),
    ensures
        lines(join_seqs(xs, seq!['\n'])) == xs,
    decreases xs.len(),
{
    let nl = seq!['\n'];
    if xs.len() == 1 {
        let x = xs[0];
        assert(forall|j: int| 0 <= j < x.len() ==> x[j] != '\n');
        lemma_find_char_at(x, '\n', x.len() as int);
        assert(seq![x] =~= xs);
    } else {
        assert(plain_line(xs[0]));
        let rest = xs.drop_first();
        lemma_join_front(xs, nl);
        assert forall|i: int| 0 <= i < rest.len() - 1 implies plain_line(#[trigger] rest[i]) by {
            assert(rest[i] == xs[i + 1]);
        }
        assert(rest.last() == xs.last());
        lemma_lines_of_joined_open(rest);
        lemma_lines_cons(xs[0], join_seqs(rest, nl));
        assert(seq![xs[0]] + rest =~= xs);
    }
}

/// Whether line `i` of `content` was ended by a newline.
pub open spec fn newline_ended(content: Seq<char>, i: int) -> bool {
    i + 1 < lines(content).len() || has_suffix(content, seq!['\n'])
}

/// Commenting out is idempotent: commenting out the commented-out
/// configuration changes nothing, unless a line ended by a newline still ends
/// with a carriage return after `lines` took one away (the content holds
/// `\r\r\n`, as in `a\r\r\n`): reading the result again takes that one
/// away too.
pub proof fn lemma_comment_out_idempotent(content: Seq<char>)
    requires
        forall|i: int| 0 <= i < lines(content).len() && newline_ended(content, i)
            ==> strip_cr(#[trigger] lines(content)[i]) == lines(content)[i],
    ensures
        commented_out(commented_out(content)) == commented_out(content),
{
    reveal_strlit("# ");
    let ls = lines(content);
    let cl = commented_lines(ls);
    let nl = seq!['\n'];
    lemma_lines_no_newline(content);
    assert forall|i: int| 0 <= i < cl.len() implies !(#[trigger] cl[i]).contains('\n')
        && (newline_ended(content, i) ==> strip_cr(cl[i]) == cl[i]) by {
        let l = ls[i];
        assert(cl[i] == commented_line(l));
        assert(!l.contains('\n'));
        if l.len() > 0 && l[0] != '#' {
            let c = "# "@ + l;
            assert forall|j: int| 0 <= j < c.len() implies c[j] != '\n' by {
                if j >= 2 {
                    assert(c[j] == l[j - 2]);
                }
            }
            assert(c.last() == l.last());
            if newline_ended(content, i) {
                assert(strip_cr(l) == l);
                assert(c.drop_last() =~= "# "@ + l.drop_last());
            }
        }
    }
    assert(commented_lines(cl) =~= cl) by {
        assert forall|i: int| 0 <= i < cl.len() implies commented_line(cl[i]) == cl[i] by {
            let l = ls[i];
            assert(cl[i] == commented_line(l));
            if l.len() > 0 && l[0] != '#' {
                assert(("# "@ + l)[0] == '#');
            }
        }
    }
    let r = commented_out(content);
    if has_suffix(content, nl) {
        assert(content.len() > 0);
        assert(ls.len() >= 1);
        assert(r == join_seqs(cl, nl) + nl);
        assert forall|i: int| 0 <= i < cl.len() implies plain_line(#[trigger] cl[i]) by {
            assert(newline_ended(content, i));
        }
        lemma_lines_of_joined(cl);
        assert(has_suffix(r, nl)) by {
            assert(r.skip(r.len() - 1) =~= nl);
        }
    } else {
        assert(r == join_seqs(cl, nl));
        if cl.len() == 0 {
            assert(r =~= Seq::<char>::empty());
            assert(lines(r) =~= Seq::<Seq<char>>::empty());
        } else if cl.last().len() > 0 {
            assert forall|i: int| 0 <= i < cl.len() - 1 implies plain_line(#[trigger] cl[i]) by {
                assert(newline_ended(content, i));
            }
            assert(!cl.last().contains('\n')) by {
                assert(!cl[cl.len() - 1].contains('\n'));
            }
            lemma_lines_of_joined_open(cl);
            assert(!has_suffix(r, nl)) by {
                let lst = cl.last();
                if cl.len() >= 2 {
                    let init = cl.drop_last();
                    assert(r == join_seqs(init, nl) + nl + lst);
                    assert(r.last() == lst.last());
                } else {
                    assert(r == cl[0]);
                    assert(r.last() == lst.last());
                }
                assert(!lst.contains('\n')) by {
                    assert(!cl[cl.len() - 1].contains('\n'));
                }
                assert(lst.last() != '\n') by {
                    if lst.last() == '\n' {
                        assert(lst[lst.len() - 1] == '\n');
                        assert(lst.contains('\n'));
                    }
                }
                if has_suffix(r, nl) {
                    assert(r.skip(r.len() - 1)[0] == r.last());
                    assert(r.last() == '\n');
                }
            }
        } else if cl.len() == 1 {
            assert(r == cl[0]);
            assert(r =~= Seq::<char>::empty());
            assert(lines(r) =~= Seq::<Seq<char>>::empty());
        } else {
            let init = cl.drop_last();
            assert(r == join_seqs(init, nl) + nl + cl.last());
            assert(r =~= join_seqs(init, nl) + nl);
            assert forall|i: int| 0 <= i < init.len() implies plain_line(#[trigger] init[i]) by {
                assert(init[i] == cl[i]);
                assert(newline_ended(content, i));
            }
            lemma_lines_of_joined(init);
            assert(has_suffix(r, nl)) by {
                assert(r.skip(r.len() - 1) =~= nl);
            }
            assert(commented_lines(init) =~= init) by {
                assert forall|i: int| 0 <= i < init.len() implies commented_line(init[i]) == init[i] by {
                    assert(init[i] == cl[i]);
                    assert(commented_lines(cl)[i] == commented_line(cl[i]));
                }
            }
        }
    }
}

// ----------------------------------------------------------------------------
// Where the global configuration lives
// ----------------------------------------------------------------------------

/// The global configuration file: under `XDG_CONFIG_HOME` when set, else
/// under `$HOME/.config`, else under the platform's configuration directory
/// (`base_config_dir`, when one is known).
pub open spec fn global_config_file(xdg_config_home: Option<Seq<char>>, home: Option<Seq<char>>, base_config_dir: Option<Seq<char>>) -> Option<Seq<char>> {
    match xdg_config_home {
        Some(x) => Some(path_join(path_join(x, "worktrunk"@), "config.toml"@)),
        None => match home {
            Some(h) => Some(path_join(path_join(path_join(h, ".config"@), "worktrunk"@), "config.toml"@)),
            None => match base_config_dir {
                Some(b) => Some(path_join(path_join(b, "worktrunk"@), "config.toml"@)),
                None => None,
            },
        },
    }
}

/// The path of the global configuration file.
pub fn global_config_path(xdg_config_home: Option<&str>, home: Option<&str>, base_config_dir: Option<&str>) -> (res: Option<String>)
    ensures
        (match res { Some(p) => Some(p@), None => None }) == global_config_file(
            match xdg_config_home { Some(x) => Some(x@), None => None },
            match home { Some(h) => Some(h@), None => None },
            match base_config_dir { Some(b) => Some(b@), None => None },
        ),
{
    match xdg_config_home {
        Some(x) => {
            let d = join_path(x, "worktrunk");
            Some(join_path(d.as_str(), "config.toml"))
        },
        None => match home {
            Some(h) => {
                let c = join_path(h, ".config");
                let d = join_path(c.as_str(), "worktrunk");
                Some(join_path(d.as_str(), "config.toml"))
            },
            None => match base_config_dir {
                Some(b) => {
                    let d = join_path(b, "worktrunk");
                    Some(join_path(d.as_str(), "config.toml"))
                },
                None => None,
            },
        },
    }
}

// ----------------------------------------------------------------------------
// Branch status keys
// ----------------------------------------------------------------------------

/// The git config key that holds a branch's status.
pub fn status_config_key(branch: &str) -> (res: String)
    ensures
        res@ == "worktrunk.status."@ + branch@,
{
    let mut k = "worktrunk.status.".to_owned();
    push_str(&mut k, branch);
    k
}

/// The first whitespace-separated word of a line, if any.
pub open spec fn first_word(l: Seq<char>) -> Option<Seq<char>>
    decreases l.len(),
{
    if l.len() == 0 {
        None
    } else if is_ws(l[0]) {
        first_word(l.drop_first())
    } else {
        Some(word_at(l))
    }
}

/// The characters of `l` up to its first whitespace.
pub open spec fn word_at(l: Seq<char>) -> Seq<char>
    decreases l.len(),
{
    if l.len() == 0 || is_ws(l[0]) { Seq::empty() } else { seq![l[0]] + word_at(l.drop_first()) }
}

/// The status keys named in `git config --get-regexp` output: the first word
/// of each line that has one.
pub open spec fn status_keys_of(output: Seq<char>) -> Seq<Seq<char>> {
    lines(output).filter(|l: Seq<char>| first_word(l) is Some).map_values(|l: Seq<char>| first_word(l)->0)
}

proof fn lemma_word_at(l: Seq<char>, j: int)
    requires
        0 <= j <= l.len(),
        forall|m: int| 0 <= m < j ==> !is_ws(#[trigger] l[m]),
        j < l.len() ==> is_ws(l[j]),
    ensures
        word_at(l) == l.take(j),
    decreases j,
{
    if j > 0 {
        assert forall|m: int| 0 <= m < j - 1 implies !is_ws(#[trigger] l.drop_first()[m]) by {
            assert(l.drop_first()[m] == l[m + 1]);
        }
        lemma_word_at(l.drop_first(), j - 1);
        assert(seq![l[0]] + l.drop_first().take(j - 1) =~= l.take(j));
    } else {
        assert(l.take(0) =~= Seq::<char>::empty());
    }
}

proof fn lemma_first_word(l: Seq<char>, i: int)
    requires
        0 <= i <= l.len(),
        forall|m: int| 0 <= m < i ==> is_ws(#[trigger] l[m]),
    ensures
        first_word(l) == first_word(l.skip(i)),
    decreases i,
{
    if i > 0 {
        assert(l.drop_first().skip(i - 1) =~= l.skip(i));
        assert forall|m: int| 0 <= m < i - 1 implies is_ws(#[trigger] l.drop_first()[m]) by {
            assert(l.drop_first()[m] == l[m + 1]);
        }
        lemma_first_word(l.drop_first(), i - 1);
    } else {
        assert(l.skip(0) =~= l);
    }
}

fn first_word_of(line: &str) -> (res: Option<String>)
    ensures
        (match res { Some(w) => Some(w@), None => None }) == first_word(line@),
{
    let cs = crate::text::chars_of(line);
    let mut i: usize = 0;
    while i < cs.len() && is_whitespace(cs[i])
        invariant
            i <= cs@.len(),
            cs@ == line@,
            forall|m: int| 0 <= m < i ==> is_ws(#[trigger] cs@[m]),
        decreases cs@.len() - i,
    {
        i = i + 1;
    }
    proof { lemma_first_word(line@, i as int); }
    if i == cs.len() {
        assert(line@.skip(i as int).len() == 0);
        return None;
    }
    let mut j: usize = i;
    while j < cs.len() && !is_whitespace(cs[j])
        invariant
            i <= j <= cs@.len(),
            cs@ == line@,
            forall|m: int| i <= m < j ==> !is_ws(#[trigger] cs@[m]),
        decreases cs@.len() - j,
    {
        j = j + 1;
    }
    let w = crate::text::string_of(&cs, i, j);
    proof {
        let t = line@.skip(i as int);
        assert forall|m: int| 0 <= m < j - i implies !is_ws(#[trigger] t[m]) by {
            assert(t[m] == cs@[i + m]);
        }
        lemma_word_at(t, j - i);
        assert(t.take(j - i) =~= cs@.subrange(i as int, j as int));
    }
    Some(w)
}

/// Clearing all statuses finds every status that was set: in the output of
/// `git config --get-regexp`, the line of a branch's status key (a branch
/// name without whitespace) names that key, whatever lines come before it.
pub proof fn lemma_set_status_is_listed(earlier: Seq<char>, branch: Seq<char>, value: Seq<char>)
    requires
        forall|i: int| 0 <= i < branch.len() ==> !is_ws(#[trigger] branch[i]),
        !value.contains('\n'),
    ensures
        status_keys_of(earlier + seq!['\n'] + ("worktrunk.status."@ + branch + " "@ + value) + seq!['\n'])
            .contains("worktrunk.status."@ + branch),
{
    reveal_strlit("worktrunk.status.");
    reveal_strlit(" ");
    let key = "worktrunk.status."@ + branch;
    let line = key + " "@ + value;
    let out = earlier + seq!['\n'] + line + seq!['\n'];
    assert forall|i: int| 0 <= i < key.len() implies !is_ws(#[trigger] key[i]) by {
        if i >= 17 {
            assert(key[i] == branch[i - 17]);
        }
    }
    assert(!line.contains('\n')) by {
        assert forall|i: int| 0 <= i < line.len() implies line[i] != '\n' by {
            if i < key.len() {
                assert(line[i] == key[i]);
            } else if i > key.len() {
                assert(line[i] == value[i - key.len() - 1]);
            }
        }
    }
    lemma_lines_appended(earlier, line);
    let l = strip_cr(line);
    assert(l.len() > key.len() && l[key.len() as int] == ' ');
    assert forall|m: int| 0 <= m < key.len() implies !is_ws(#[trigger] l[m]) by {
        assert(l[m] == key[m]);
    }
    lemma_word_at(l, key.len() as int);
    assert(l.take(key.len() as int) =~= key);
    assert(first_word(l) == Some(key));
    let ls = lines(out);
    let i = choose|i: int| 0 <= i < ls.len() && ls[i] == l;
    let pred = |x: Seq<char>| first_word(x) is Some;
    ls.lemma_filter_contains(pred, i);
    let f = ls.filter(pred);
    let j = choose|j: int| 0 <= j < f.len() && f[j] == l;
    let keys = f.map_values(|x: Seq<char>| first_word(x)->0);
    assert(keys[j] == key);
    assert(status_keys_of(out) == keys);
}

/// The status keys to unset when clearing all statuses.
pub fn status_keys(output: &str) -> (res: Vec<String>)
    ensures
        strings_view(res@) == status_keys_of(output@),
{
    let ls = split_lines(output);
    let ghost all = lines(output@);
    let ghost keep = |l: Seq<char>| first_word(l) is Some;
    let ghost name = |l: Seq<char>| first_word(l)->0;
    let mut keys: Vec<String> = Vec::new();
    let mut k: usize = 0;
    while k < ls.len()
        invariant
            k <= ls@.len(),
            ls@.len() == all.len(),
            all == lines(output@),
            forall|m: int| 0 <= m < ls@.len() ==> #[trigger] ls@[m]@ == all[m],
            keep == (|l: Seq<char>| first_word(l) is Some),
            name == (|l: Seq<char>| first_word(l)->0),
            strings_view(keys@) == all.take(k as int).filter(keep).map_values(name),
        decreases ls@.len() - k,
    {
        proof {
            assert(all.take(k + 1).drop_last() =~= all.take(k as int));
            reveal(Seq::filter);
        }
        let ghost fb = all.take(k as int).filter(keep);
        let ghost before = strings_view(keys@);
        match first_word_of(ls[k].as_str()) {
            Some(w) => {
                keys.push(w);
                assert(all.take(k + 1).filter(keep) =~= fb.push(all[k as int]));
                assert(strings_view(keys@) =~= before.push(name(all[k as int])));
                assert(fb.push(all[k as int]).map_values(name) =~= fb.map_values(name).push(name(all[k as int])));
            },
            None => {
                assert(all.take(k + 1).filter(keep) =~= fb);
            },
        }
        k = k + 1;
    }
    assert(all.take(ls@.len() as int) =~= all);
    keys
}

/// The message after clearing all statuses: how many were cleared (the
/// count in bold), or that there were none.
pub open spec fn cleared_statuses_text(count: nat, color: bool) -> Seq<char> {
    if count == 0 {
        seq![INFO_EMOJI, ' '] + "No statuses to clear"@
    } else {
        success_msg(color, seq![pl("Cleared "@), bo(decimal(count)), pl(if count == 1 { " status"@ } else { " statuses"@ })])
    }
}

/// The message after clearing all statuses.
pub fn cleared_statuses_message(count: usize, color: bool) -> (res: String)
    ensures
        res@ == cleared_statuses_text(count as nat, color),
{
    if count == 0 {
        let mut t = String::new();
        push_char(&mut t, INFO_EMOJI);
        push_char(&mut t, ' ');
        push_str(&mut t, "No statuses to clear");
        return t;
    }
    let n = decimal_string(count as u128);
    let word = if count == 1 { " status" } else { " statuses" };
    success_message(&parts(&[("Cleared ", PartKind::Plain), (n.as_str(), PartKind::Bold), (word, PartKind::Plain)]), color)
}

/// The message after setting a branch's status.
pub fn status_set_message(branch: &str, value: &str, color: bool) -> (res: String)
    ensures
        res@ == success_msg(color, seq![pl("Set status for "@), bo(branch@), pl(" to "@), bo(value@)]),
{
    success_message(&parts(&[("Set status for ", PartKind::Plain), (branch, PartKind::Bold), (" to ", PartKind::Plain),
        (value, PartKind::Bold)]), color)
}

/// The message after clearing a branch's status.
pub fn status_cleared_message(branch: &str, color: bool) -> (res: String)
    ensures
        res@ == success_msg(color, seq![pl("Cleared status for "@), bo(branch@)]),
{
    success_message(&parts(&[("Cleared status for ", PartKind::Plain), (branch, PartKind::Bold)]), color)
}

// ----------------------------------------------------------------------------
// Shell integration status
// ----------------------------------------------------------------------------

/// What the status report knows of one shell whose startup file was found.
pub struct ShellStatusEntry {
    pub shell: Shell,
    /// The startup file, as shown.
    pub path: String,
    /// What configuring it would do.
    pub action: ConfigAction,
    /// For zsh: whether `compinit` is missing, so completions would not work.
    pub compinit_missing: bool,
    /// For fish: the completion file, as shown, and whether it exists.
    pub completion: Option<(String, bool)>,
}

/// The code that starts a style when colored.
pub open spec fn code(color: bool, c: Seq<char>) -> Seq<char> {
    if color { c } else { Seq::empty() }
}

/// Bold, dim, yellow and reset codes.
pub open spec fn bold_on(color: bool) -> Seq<char> { code(color, seq!['\x1b', '[', '1', 'm']) }

pub open spec fn dim_on(color: bool) -> Seq<char> { code(color, seq!['\x1b', '[', '2', 'm']) }

pub open spec fn yellow_on(color: bool) -> Seq<char> { code(color, seq!['\x1b', '[', '3', '3', 'm']) }

pub open spec fn reset(color: bool) -> Seq<char> { code(color, seq!['\x1b', '[', '0', 'm']) }

/// What is configured for a shell.
pub open spec fn what_for(shell: Shell) -> Seq<char> {
    if shell == Shell::Fish { "shell extension"@ } else { "shell extension & completions"@ }
}

/// A shell's name in bold.
pub open spec fn shown_name(shell: Shell, color: bool) -> Seq<char> {
    bold_on(color) + shell_name(shell) + reset(color)
}

/// The line of a shell that is configured.
pub open spec fn configured_line(e: ShellStatusEntry, color: bool) -> Seq<char> {
    seq![INFO_EMOJI, ' '] + "Already configured "@ + what_for(e.shell) + " for "@ + shown_name(e.shell, color) + " @ "@ + e.path@
        + seq!['\n']
}

/// For zsh without `compinit`: the warning and the line to add.
pub open spec fn compinit_lines(e: ShellStatusEntry, color: bool) -> Seq<char> {
    if e.shell == Shell::Zsh && e.compinit_missing {
        seq![WARNING_EMOJI, ' '] + yellow_on(color) + "Completions won't work; add to ~/.zshrc before the wt line:"@
            + reset(color) + seq!['\n'] + gutter_lines(""@, color, lines("autoload -Uz compinit && compinit"@))
    } else {
        Seq::empty()
    }
}

/// For fish: the line about its completion file.
pub open spec fn completion_line(e: ShellStatusEntry, color: bool) -> Seq<char> {
    if e.shell == Shell::Fish {
        match e.completion {
            Some((p, true)) => seq![INFO_EMOJI, ' '] + "Already configured completions for "@ + shown_name(e.shell, color)
                + " @ "@ + p@ + seq!['\n'],
            Some((p, false)) => seq![HINT_EMOJI, ' '] + dim_on(color) + "Not configured completions for "@
                + shown_name(e.shell, color) + " @ "@ + p@ + reset(color) + seq!['\n'],
            None => Seq::empty(),
        }
    } else {
        Seq::empty()
    }
}

/// The line of a shell that is not configured.
pub open spec fn unconfigured_line(e: ShellStatusEntry, color: bool) -> Seq<char> {
    seq![HINT_EMOJI, ' '] + dim_on(color) + "Not configured "@ + what_for(e.shell) + " for "@ + shown_name(e.shell, color)
        + " @ "@ + e.path@ + reset(color) + seq!['\n']
}

/// The report lines of one shell.
pub open spec fn entry_text(e: ShellStatusEntry, color: bool) -> Seq<char> {
    match e.action {
        ConfigAction::AlreadyExists => configured_line(e, color) + compinit_lines(e, color) + completion_line(e, color),
        ConfigAction::WouldAdd | ConfigAction::WouldCreate => unconfigured_line(e, color),
        _ => Seq::empty(),
    }
}

/// Whether a shell's report asks for installing the integration.
pub open spec fn entry_pending(e: ShellStatusEntry) -> bool {
    match e.action {
        ConfigAction::AlreadyExists => e.shell == Shell::Fish && e.completion matches Some((_, false)),
        ConfigAction::WouldAdd | ConfigAction::WouldCreate => true,
        _ => false,
    }
}

/// The report lines of all configured shells, in order.
pub open spec fn entries_text(es: Seq<ShellStatusEntry>, color: bool) -> Seq<char>
    decreases es.len(),
{
    if es.len() == 0 { Seq::empty() } else { entries_text(es.drop_last(), color) + entry_text(es.last(), color) }
}

/// The report line of a shell that was skipped because its startup file does
/// not exist.
pub open spec fn skipped_text(shell: Shell, path: Seq<char>, color: bool) -> Seq<char> {
    dim_on(color) + seq![INFO_EMOJI] + " Skipped "@ + shell_name(shell) + "; "@ + path + " not found"@ + reset(color) + seq!['\n']
}

/// The report lines of all skipped shells, in order.
pub open spec fn skipped_lines(ss: Seq<(Shell, String)>, color: bool) -> Seq<char>
    decreases ss.len(),
{
    if ss.len() == 0 { Seq::empty() } else { skipped_lines(ss.drop_last(), color) + skipped_text(ss.last().0, ss.last().1@, color) }
}

/// The shell integration status report: one block per shell found, one line
/// per skipped shell, and a closing hint when something is not configured.
pub open spec fn shell_status_text(es: Seq<ShellStatusEntry>, skipped: Seq<(Shell, String)>, color: bool) -> Seq<char> {
    entries_text(es, color) + skipped_lines(skipped, color)
        + (if exists|i: int| 0 <= i < es.len() && entry_pending(#[trigger] es[i]) {
            seq!['\n'] + seq![HINT_EMOJI, ' '] + dim_on(color) + "Run 'wt config shell install' to enable shell integration"@
                + reset(color) + seq!['\n']
        } else {
            Seq::empty()
        })
}

/// The report when the shells could not be scanned.
pub open spec fn scan_failed_text(error: Seq<char>, color: bool) -> Seq<char> {
    seq![HINT_EMOJI, ' '] + dim_on(color) + "Could not determine shell status: "@ + error + reset(color) + seq!['\n']
}

fn push_code(out: &mut String, color: bool, c: &str)
    ensures
        final(out)@ == old(out)@ + code(color, c@),
{
    if color {
        push_str(out, c);
    } else {
        assert(old(out)@ + Seq::<char>::empty() =~= old(out)@);
    }
}

fn push_shown(out: &mut String, shell: Shell, color: bool)
    ensures
        final(out)@ == old(out)@ + shown_name(shell, color),
{
    proof {
        reveal_strlit("\x1b[1m");
        reveal_strlit("\x1b[0m");
    }
    let ghost start = out@;
    push_code(out, color, "\x1b[1m");
    push_str(out, shell.name());
    push_code(out, color, "\x1b[0m");
    assert(out@ =~= start + shown_name(shell, color));
}

fn push_configured_line(out: &mut String, e: &ShellStatusEntry, color: bool)
    ensures
        final(out)@ == old(out)@ + configured_line(*e, color),
{
    proof { reveal_strlit("\n"); }
    let ghost start = out@;
    let what = if e.shell == Shell::Fish { "shell extension" } else { "shell extension & completions" };
    push_char(out, INFO_EMOJI);
    push_char(out, ' ');
    push_str(out, "Already configured ");
    push_str(out, what);
    push_str(out, " for ");
    push_shown(out, e.shell, color);
    push_str(out, " @ ");
    push_str(out, e.path.as_str());
    push_char(out, '\n');
    assert(out@ =~= start + configured_line(*e, color));
}

fn push_compinit_lines(out: &mut String, e: &ShellStatusEntry, color: bool)
    ensures
        final(out)@ == old(out)@ + compinit_lines(*e, color),
{
    proof {
        reveal_strlit("\x1b[33m");
        reveal_strlit("\x1b[0m");
    }
    let ghost start = out@;
    if e.shell == Shell::Zsh && e.compinit_missing {
        push_char(out, WARNING_EMOJI);
        push_char(out, ' ');
        push_code(out, color, "\x1b[33m");
        push_str(out, "Completions won't work; add to ~/.zshrc before the wt line:");
        push_code(out, color, "\x1b[0m");
        push_char(out, '\n');
        let g = format_with_gutter("autoload -Uz compinit && compinit", "", color);
        push_str(out, g.as_str());
    }
    assert(out@ =~= start + compinit_lines(*e, color));
}

fn push_completion_line(out: &mut String, e: &ShellStatusEntry, color: bool)
    ensures
        final(out)@ == old(out)@ + completion_line(*e, color),
{
    proof {
        reveal_strlit("\x1b[2m");
        reveal_strlit("\x1b[0m");
    }
    let ghost start = out@;
    if e.shell == Shell::Fish {
        match &e.completion {
            Some((p, exists)) => {
                if *exists {
                    push_char(out, INFO_EMOJI);
                    push_char(out, ' ');
                    push_str(out, "Already configured completions for ");
                    push_shown(out, e.shell, color);
                    push_str(out, " @ ");
                    push_str(out, p.as_str());
                    push_char(out, '\n');
                } else {
                    push_char(out, HINT_EMOJI);
                    push_char(out, ' ');
                    push_code(out, color, "\x1b[2m");
                    push_str(out, "Not configured completions for ");
                    push_shown(out, e.shell, color);
                    push_str(out, " @ ");
                    push_str(out, p.as_str());
                    push_code(out, color, "\x1b[0m");
                    push_char(out, '\n');
                }
            },
            None => {},
        }
    }
    assert(out@ =~= start + completion_line(*e, color));
}

fn push_unconfigured_line(out: &mut String, e: &ShellStatusEntry, color: bool)
    ensures
        final(out)@ == old(out)@ + unconfigured_line(*e, color),
{
    proof {
        reveal_strlit("\x1b[2m");
        reveal_strlit("\x1b[0m");
    }
    let ghost start = out@;
    let what = if e.shell == Shell::Fish { "shell extension" } else { "shell extension & completions" };
    push_char(out, HINT_EMOJI);
    push_char(out, ' ');
    push_code(out, color, "\x1b[2m");
    push_str(out, "Not configured ");
    push_str(out, what);
    push_str(out, " for ");
    push_shown(out, e.shell, color);
    push_str(out, " @ ");
    push_str(out, e.path.as_str());
    push_code(out, color, "\x1b[0m");
    push_char(out, '\n');
    assert(out@ =~= start + unconfigured_line(*e, color));
}

fn entry_lines(out: &mut String, e: &ShellStatusEntry, color: bool)
    ensures
        final(out)@ == old(out)@ + entry_text(*e, color),
{
    let ghost start = out@;
    match e.action {
        ConfigAction::AlreadyExists => {
            push_configured_line(out, e, color);
            push_compinit_lines(out, e, color);
            push_completion_line(out, e, color);
            assert(out@ =~= start + entry_text(*e, color));
        },
        ConfigAction::WouldAdd | ConfigAction::WouldCreate => {
            push_unconfigured_line(out, e, color);
        },
        _ => {
            assert(out@ =~= start + entry_text(*e, color));
        },
    }
}

/// Render the shell integration status report.
pub fn render_shell_status(entries: &Vec<ShellStatusEntry>, skipped: &Vec<(Shell, String)>, color: bool) -> (res: String)
    ensures
        res@ == shell_status_text(entries@, skipped@, color),
{
    proof {
        reveal_strlit("\x1b[2m");
        reveal_strlit("\x1b[0m");
    }
    let mut out = String::new();
    let mut any_pending = false;
    let mut k: usize = 0;
    while k < entries.len()
        invariant
            k <= entries@.len(),
            out@ == entries_text(entries@.take(k as int), color),
            any_pending == exists|i: int| 0 <= i < k && entry_pending(#[trigger] entries@[i]),
        decreases entries@.len() - k,
    {
        let e = &entries[k];
        entry_lines(&mut out, e, color);
        let pending = match e.action {
            ConfigAction::AlreadyExists => e.shell == Shell::Fish && match &e.completion {
                Some((_, exists)) => !*exists,
                None => false,
            },
            ConfigAction::WouldAdd | ConfigAction::WouldCreate => true,
            _ => false,
        };
        assert(pending == entry_pending(entries@[k as int]));
        if pending {
            any_pending = true;
        }
        assert(entries@.take(k + 1).drop_last() =~= entries@.take(k as int));
        k = k + 1;
    }
    assert(entries@.take(entries@.len() as int) =~= entries@);
    let ghost head = out@;
    let mut j: usize = 0;
    while j < skipped.len()
        invariant
            j <= skipped@.len(),
            out@ == head + skipped_lines(skipped@.take(j as int), color),
        decreases skipped@.len() - j,
    {
        let (shell, path) = &skipped[j];
        proof {
            reveal_strlit("\x1b[2m");
            reveal_strlit("\x1b[0m");
        }
        let ghost before = out@;
        push_code(&mut out, color, "\x1b[2m");
        push_char(&mut out, INFO_EMOJI);
        push_str(&mut out, " Skipped ");
        push_str(&mut out, shell.name());
        push_str(&mut out, "; ");
        push_str(&mut out, path.as_str());
        push_str(&mut out, " not found");
        push_code(&mut out, color, "\x1b[0m");
        push_char(&mut out, '\n');
        assert(out@ =~= before + skipped_text(skipped@[j as int].0, skipped@[j as int].1@, color));
        assert(skipped@.take(j + 1).drop_last() =~= skipped@.take(j as int));
        j = j + 1;
    }
    assert(skipped@.take(skipped@.len() as int) =~= skipped@);
    let ghost body = out@;
    assert(body == entries_text(entries@, color) + skipped_lines(skipped@, color));
    if any_pending {
        push_char(&mut out, '\n');
        push_char(&mut out, HINT_EMOJI);
        push_char(&mut out, ' ');
        push_code(&mut out, color, "\x1b[2m");
        push_str(&mut out, "Run 'wt config shell install' to enable shell integration");
        push_code(&mut out, color, "\x1b[0m");
        push_char(&mut out, '\n');
        assert(out@ =~= shell_status_text(entries@, skipped@, color));
    } else {
        assert(out@ =~= shell_status_text(entries@, skipped@, color));
    }
    out
}

/// Render the report when the shells could not be scanned.
pub fn render_scan_failure(error: &str, color: bool) -> (res: String)
    ensures
        res@ == scan_failed_text(error@, color),
{
    proof {
        reveal_strlit("\x1b[2m");
        reveal_strlit("\x1b[0m");
    }
    let mut out = String::new();
    push_char(&mut out, HINT_EMOJI);
    push_char(&mut out, ' ');
    push_code(&mut out, color, "\x1b[2m");
    push_str(&mut out, "Could not determine shell status: ");
    push_str(&mut out, error);
    push_code(&mut out, color, "\x1b[0m");
    push_char(&mut out, '\n');
    assert(out@ =~= scan_failed_text(error@, color));
    out
}

// ----------------------------------------------------------------------------
// `config show`: the global and the project configuration
// ----------------------------------------------------------------------------

/// The bold style of paths.
pub open spec fn strong() -> TextStyle {
    TextStyle { fg: None, bg: None, bold: true, dimmed: false }
}

/// A hint line: the hint emoji, then the text dimmed.
pub open spec fn hint_line(text: Seq<char>, color: bool) -> Seq<char> {
    seq![HINT_EMOJI, ' '] + styled_text(color, dim(), text) + seq!['\n']
}

/// A configuration file's content shown in the gutter.
pub open spec fn shown_config(content: Seq<char>, color: bool) -> Seq<char> {
    gutter_lines(""@, color, lines(content))
}

/// The configuration used when there is no global configuration file.
pub open spec fn default_config() -> Seq<char> {
    "# Default configuration:\nworktree-path = \"../{{ main_worktree }}.{{ branch }}\""@
}

/// The global configuration section of `config show`: the file's path, then
/// its content, or notes when it is missing (with the defaults) or empty.
/// `contents` is `None` when the file does not exist.
pub open spec fn global_config_text(path: Seq<char>, contents: Option<Seq<char>>, color: bool) -> Seq<char> {
    let head = seq![INFO_EMOJI, ' '] + "Global Config: "@ + styled_text(color, strong(), path) + seq!['\n'];
    match contents {
        None => head + hint_line("Not found (using defaults)"@, color)
            + hint_line("Run 'wt config create' to create a config file"@, color) + seq!['\n']
            + shown_config(default_config(), color),
        Some(c) => if trim(c).len() == 0 {
            head + hint_line("Empty file (using defaults)"@, color)
        } else {
            head + shown_config(c, color)
        },
    }
}

/// Append a hint line.
fn push_hint_line(out: &mut String, text: &str, color: bool)
    ensures
        final(out)@ == old(out)@ + hint_line(text@, color),
{
    push_char(out, HINT_EMOJI);
    push_char(out, ' ');
    let t = paint(text, dim_style(), color);
    push_str(out, t.as_str());
    push_char(out, '\n');
}

/// Render the global configuration section of `config show`.
pub fn render_global_config(path: &str, contents: Option<&str>, color: bool) -> (res: String)
    ensures
        res@ == global_config_text(path@, match contents { Some(c) => Some(c@), None => None }, color),
{
    let mut out = String::new();
    push_char(&mut out, INFO_EMOJI);
    push_char(&mut out, ' ');
    push_str(&mut out, "Global Config: ");
    let p = paint(path, bold_style(), color);
    push_str(&mut out, p.as_str());
    push_char(&mut out, '\n');
    match contents {
        None => {
            push_hint_line(&mut out, "Not found (using defaults)", color);
            push_hint_line(&mut out, "Run 'wt config create' to create a config file", color);
            push_char(&mut out, '\n');
            let g = format_with_gutter("# Default configuration:\nworktree-path = \"../{{ main_worktree }}.{{ branch }}\"", "", color);
            push_str(&mut out, g.as_str());
        },
        Some(c) => {
            let t = trim_str(c);
            if t.as_str().is_empty() {
                push_hint_line(&mut out, "Empty file (using defaults)", color);
            } else {
                let g = format_with_gutter(c, "", color);
                push_str(&mut out, g.as_str());
            }
        },
    }
    out
}

/// The path of a repository's project configuration.
pub fn project_config_path(repo_root: &str) -> (res: String)
    ensures
        res@ == path_join(path_join(repo_root@, ".config"@), "wt.toml"@),
{
    let d = join_path(repo_root, ".config");
    join_path(d.as_str(), "wt.toml")
}

/// The project configuration section of `config show`: a note outside a
/// repository (`path` is `None`), else the file's path, then its content or
/// a note when it is missing or empty (`contents` is `None` when the file
/// does not exist).
pub open spec fn project_config_text(path: Option<Seq<char>>, contents: Option<Seq<char>>, color: bool) -> Seq<char> {
    match path {
        None => seq![INFO_EMOJI, ' '] + styled_text(color, dim(), "Project Config: Not in a git repository"@)
            + seq!['\n'],
        Some(p) => {
            let head = seq![INFO_EMOJI, ' '] + "Project Config: "@ + styled_text(color, strong(), p) + seq!['\n'];
            match contents {
                None => head + hint_line("Not found"@, color),
                Some(c) => if trim(c).len() == 0 {
                    head + hint_line("Empty file"@, color)
                } else {
                    head + shown_config(c, color)
                },
            }
        },
    }
}

/// Render the project configuration section of `config show`.
pub fn render_project_config(path: Option<&str>, contents: Option<&str>, color: bool) -> (res: String)
    ensures
        res@ == project_config_text(match path { Some(p) => Some(p@), None => None },
            match contents { Some(c) => Some(c@), None => None }, color),
{
    let mut out = String::new();
    push_char(&mut out, INFO_EMOJI);
    push_char(&mut out, ' ');
    match path {
        None => {
            let t = paint("Project Config: Not in a git repository", dim_style(), color);
            push_str(&mut out, t.as_str());
            push_char(&mut out, '\n');
        },
        Some(p) => {
            push_str(&mut out, "Project Config: ");
            let b = paint(p, bold_style(), color);
            push_str(&mut out, b.as_str());
            push_char(&mut out, '\n');
            match contents {
                None => push_hint_line(&mut out, "Not found", color),
                Some(c) => {
                    let t = trim_str(c);
                    if t.as_str().is_empty() {
                        push_hint_line(&mut out, "Empty file", color);
                    } else {
                        let g = format_with_gutter(c, "", color);
                        push_str(&mut out, g.as_str());
                    }
                },
            }
        },
    }
    out
}

/// A hint (dimmed, with the hint emoji) on a line of its own.
pub open spec fn hint_text(text: Seq<char>, color: bool) -> Seq<char> {
    emoji_message(color, dim(), HINT_EMOJI, text) + seq!['\n']
}

/// What `config create` reports when the global configuration file exists:
/// its path, a blank line, and where to look instead.
pub open spec fn config_exists_text(path: Seq<char>, color: bool) -> Seq<char> {
    seq![INFO_EMOJI, ' '] + "Global config already exists: "@ + styled_text(color, strong(), path) + seq!['\n', '\n']
        + hint_text("Use 'wt config show' to view existing configuration"@, color)
        + hint_text("Use 'wt config create --help' for config format reference"@, color)
}

/// The report of `config create` when the file exists.
pub fn config_exists_message(path: &str, color: bool) -> (res: String)
    ensures
        res@ == config_exists_text(path@, color),
{
    let mut out = String::new();
    push_char(&mut out, INFO_EMOJI);
    push_char(&mut out, ' ');
    push_str(&mut out, "Global config already exists: ");
    let p = paint(path, bold_style(), color);
    push_str(&mut out, p.as_str());
    push_str(&mut out, "\n\n");
    proof { reveal_strlit("\n\n"); }
    let h = format_hint("Use 'wt config show' to view existing configuration", color);
    push_str(&mut out, h.as_str());
    push_char(&mut out, '\n');
    let h = format_hint("Use 'wt config create --help' for config format reference", color);
    push_str(&mut out, h.as_str());
    push_char(&mut out, '\n');
    out
}

/// What `config create` reports after writing the file.
pub open spec fn config_created_text(path: Seq<char>, color: bool) -> Seq<char> {
    success_msg(color, seq![pl("Created config file: "@), bo(path)]) + seq!['\n', '\n']
        + hint_text("Edit this file to customize worktree paths and LLM settings"@, color)
}

/// The report of `config create` after writing the file.
pub fn config_created_message(path: &str, color: bool) -> (res: String)
    ensures
        res@ == config_created_text(path@, color),
{
    let mut out = success_message(&parts(&[("Created config file: ", PartKind::Plain), (path, PartKind::Bold)]), color);
    push_str(&mut out, "\n\n");
    proof { reveal_strlit("\n\n"); }
    let h = format_hint("Edit this file to customize worktree paths and LLM settings", color);
    push_str(&mut out, h.as_str());
    push_char(&mut out, '\n');
    out
}

} // verus!
