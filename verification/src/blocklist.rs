use vstd::prelude::*;

use crate::name::{bytes_eq, normalize_line, normalized, DOT, LF};

verus! {

/// True exactly when `suffix` matches the end of `name` on a label boundary:
/// `name` literally ends with `suffix`, and the match either covers the whole
/// name or begins right after a `'.'`. This is what keeps the suffix
/// `example.com.` from matching `evilexample.com.`.
pub open spec fn boundary_match(name: Seq<u8>, suffix: Seq<u8>) -> bool {
    &&& suffix.len() <= name.len()
    &&& name.subrange(name.len() - suffix.len(), name.len() as int) == suffix
    &&& (suffix.len() == name.len() || name[name.len() - suffix.len() - 1] == DOT)
}

/// The set of names held by a vector of names.
pub open spec fn names_in(v: Seq<Vec<u8>>) -> Set<Seq<u8>> {
    Set::new(|s: Seq<u8>| exists|i: int| 0 <= i < v.len() && v[i]@ == s)
}

/// A name is blocked by a blocklist when some suffix of the list matches it
/// on a label boundary.
pub open spec fn name_blocked(blocklist: Set<Seq<u8>>, name: Seq<u8>) -> bool {
    exists|s: Seq<u8>| blocklist.contains(s) && boundary_match(name, s)
}

/// The index of the first line feed in `s`, or `s.len()` if there is none.
pub open spec fn line_end(s: Seq<u8>) -> nat
    decreases s.len(),
{
    if s.len() == 0 {
        0
    } else if s[0] == LF {
        0
    } else {
        1 + line_end(s.drop_first())
    }
}

/// The lines of a text, split at line feeds; a trailing line feed does not
/// produce a final empty line.
pub open spec fn split_lines(s: Seq<u8>) -> Seq<Seq<u8>>
    decreases s.len(),
{
    if s.len() == 0 {
        seq![]
    } else {
        let e = line_end(s) as int;
        if e >= s.len() {
            seq![s]
        } else {
            seq![s.subrange(0, e)] + split_lines(s.subrange(e + 1, s.len() as int))
        }
    }
}

/// The set of canonical forms of a sequence of lines.
pub open spec fn normalized_set(lines: Seq<Seq<u8>>) -> Set<Seq<u8>> {
    Set::new(|s: Seq<u8>| exists|i: int| 0 <= i < lines.len() && normalized(lines[i]) == s)
}

proof fn lemma_line_end_of_prefix(s: Seq<u8>, t: Seq<u8>)
    requires
        forall|j: int| 0 <= j < s.len() ==> s[j] != LF,
    ensures
        line_end(s + seq![LF] + t) == s.len(),
    decreases s.len(),
{
    let w = s + seq![LF] + t;
    if s.len() == 0 {
        assert(w[0] == LF);
    } else {
        assert(w[0] == s[0]);
        assert(w.drop_first() =~= s.drop_first() + seq![LF] + t);
        lemma_line_end_of_prefix(s.drop_first(), t);
    }
}

proof fn lemma_split_at_first_lf(s: Seq<u8>, t: Seq<u8>)
    requires
        forall|j: int| 0 <= j < s.len() ==> s[j] != LF,
    ensures
        split_lines(s + seq![LF] + t) == seq![s] + split_lines(t),
{
    let w = s + seq![LF] + t;
    lemma_line_end_of_prefix(s, t);
    assert(w.len() > 0);
    assert(line_end(w) < w.len());
    assert(w.subrange(0, s.len() as int) =~= s);
    assert(w.subrange(s.len() as int + 1, w.len() as int) =~= t);
}

/// Splits a text into its lines, at line feeds; a trailing line feed does
/// not produce a final empty line.
pub fn split_text_lines(text: &Vec<u8>) -> (r: Vec<Vec<u8>>)
    ensures
        r.deep_view() == split_lines(text@),
{
    let mut out: Vec<Vec<u8>> = Vec::new();
    let mut cur: Vec<u8> = Vec::new();
    let n: usize = text.len();
    let mut i: usize = 0;
    assert(Seq::<u8>::empty() + text@.subrange(0, n as int) =~= text@);
    assert(Seq::<Seq<u8>>::empty() + split_lines(text@) =~= split_lines(text@));
    while i < n
        invariant
            0 <= i <= n,
            n == text.len(),
            forall|j: int| 0 <= j < cur@.len() ==> cur@[j] != LF,
            split_lines(text@) == out.deep_view() + split_lines(
                cur@ + text@.subrange(i as int, n as int),
            ),
        decreases n - i,
    {
        let ghost rest = text@.subrange(i as int, n as int);
        let ghost rest2 = text@.subrange(i as int + 1, n as int);
        let b = text[i];
        assert(rest[0] == b);
        if b == LF {
            let ghost prev_out = out.deep_view();
            let ghost line = cur@;
            assert(cur@ + rest =~= line + seq![LF] + rest2);
            proof {
                lemma_split_at_first_lf(line, rest2);
            }
            out.push(cur);
            cur = Vec::new();
            assert(out.deep_view() =~~= prev_out.push(line));
            assert(out.deep_view() + split_lines(cur@ + rest2)
                =~= prev_out + (seq![line] + split_lines(rest2)));
            assert(cur@ + rest2 =~= rest2);
        } else {
            let ghost line = cur@;
            cur.push(b);
            assert(cur@ + rest2 =~= line + rest);
        }
        i += 1;
    }
    assert(cur@ + text@.subrange(n as int, n as int) =~= cur@);
    if cur.len() > 0 {
        let ghost prev_out = out.deep_view();
        let ghost line = cur@;
        assert(split_lines(line) =~= seq![line]) by {
            if line_end(line) < line.len() {
                assert(line[line_end(line) as int] == LF) by {
                    lemma_line_end_first_lf(line);
                }
            }
            assert(line.subrange(0, line.len() as int) =~= line);
        }
        out.push(cur);
        assert(out.deep_view() =~~= prev_out.push(line));
        assert(prev_out + seq![line] =~~= out.deep_view());
    } else {
        assert(split_lines(cur@) =~= Seq::<Seq<u8>>::empty());
        assert(out.deep_view() + Seq::<Seq<u8>>::empty() =~= out.deep_view());
    }
    out
}

proof fn lemma_line_end_first_lf(s: Seq<u8>)
    ensures
        line_end(s) <= s.len(),
        line_end(s) < s.len() ==> s[line_end(s) as int] == LF,
    decreases s.len(),
{
    if s.len() > 0 && s[0] != LF {
        lemma_line_end_first_lf(s.drop_first());
    }
}

/// A name is in the set of a vector exactly when some element equals it.
pub fn contains_name(v: &Vec<Vec<u8>>, name: &Vec<u8>) -> (r: bool)
    ensures
        r == names_in(v@).contains(name@),
{
    let n: usize = v.len();
    let mut i: usize = 0;
    while i < n
        invariant
            0 <= i <= n,
            n == v.len(),
            forall|j: int| 0 <= j < i ==> v@[j]@ != name@,
        decreases n - i,
    {
        if bytes_eq(&v[i], name) {
            assert(names_in(v@).contains(name@));
            return true;
        }
        i += 1;
    }
    false
}

/// True exactly when `it` matches the end of `name` on a label boundary.
pub fn does_end(name: &Vec<u8>, it: &Vec<u8>) -> (r: bool)
    ensures
        r == boundary_match(name@, it@),
{
    if it.len() > name.len() {
        return false;
    }
    let off: usize = name.len() - it.len();
    let m: usize = it.len();
    let mut j: usize = 0;
    while j < m
        invariant
            0 <= j <= m,
            m == it.len(),
            it.len() <= name.len(),
            off == name.len() - it.len(),
            forall|k: int| 0 <= k < j ==> name@[off + k] == it@[k],
        decreases m - j,
    {
        if name[off + j] != it[j] {
            assert(!boundary_match(name@, it@)) by {
                assert(name@.subrange(name@.len() - it@.len(), name@.len() as int)[j as int]
                    == name@[off + j]);
            }
            return false;
        }
        j += 1;
    }
    assert(name@.subrange(name@.len() - it@.len(), name@.len() as int) =~= it@);
    if it.len() == name.len() {
        true
    } else {
        name[off - 1] == DOT
    }
}

/// The immutable suffix blocklist: a set of canonical (trimmed,
/// dot-terminated) names, built once at startup and never changed.
pub struct Blocklist {
    entries: Vec<Vec<u8>>,
}

impl View for Blocklist {
    type V = Set<Seq<u8>>;

    closed spec fn view(&self) -> Set<Seq<u8>> {
        names_in(self.entries@)
    }
}

impl Blocklist {
    /// Builds a blocklist from a sequence of raw lines: each line is brought
    /// to canonical form, and duplicates collapse (set semantics).
    pub fn from_lines(lines: Vec<Vec<u8>>) -> (r: Blocklist)
        ensures
            r@ == normalized_set(lines.deep_view()),
    {
        let ghost all = lines.deep_view();
        let mut rest = lines;
        let mut entries: Vec<Vec<u8>> = Vec::new();
        assert(forall|i: int| 0 <= i < rest@.len() ==> rest@[i]@ == all[i]);
        assert(all.subrange(rest@.len() as int, all.len() as int) =~= Seq::<Seq<u8>>::empty());
        loop
            invariant
                rest@.len() <= all.len(),
                forall|i: int| 0 <= i < rest@.len() ==> rest@[i]@ == all[i],
                names_in(entries@) == normalized_set(
                    all.subrange(rest@.len() as int, all.len() as int),
                ),
            ensures
                names_in(entries@) == normalized_set(all),
            decreases rest@.len(),
        {
            let ghost done = all.subrange(rest@.len() as int, all.len() as int);
            match rest.pop() {
                None => {
                    assert(done =~= all);
                    break;
                }
                Some(line) => {
                    let ghost done2 = all.subrange(rest@.len() as int, all.len() as int);
                    let ghost raw = line@;
                    assert(raw == all[rest@.len() as int]);
                    let mut line = line;
                    normalize_line(&mut line);
                    assert(line@ == normalized(raw));
                    let ghost prev = entries@;
                    if !contains_name(&entries, &line) {
                        entries.push(line);
                        assert(names_in(entries@) =~= names_in(prev).insert(line@)) by {
                            assert(forall|s: Seq<u8>| names_in(prev).contains(s)
                                ==> names_in(entries@).contains(s)) by {
                                assert(forall|i: int| 0 <= i < prev.len()
                                    ==> entries@[i] == prev[i]);
                            }
                            assert(entries@[prev.len() as int]@ == line@);
                        }
                    } else {
                        assert(names_in(entries@) =~= names_in(prev).insert(line@));
                    }
                    assert(names_in(entries@) =~= normalized_set(done2)) by {
                        assert(normalized_set(done).insert(line@) =~= normalized_set(done2)) by {
                            assert(done2[0] == all[rest@.len() as int]);
                            assert(forall|i: int| 0 <= i < done.len() ==> done[i] == done2[i + 1]);
                            assert(forall|s: Seq<u8>| normalized_set(done2).contains(s)
                                ==> normalized_set(done).insert(line@).contains(s)) by {
                                assert(forall|i: int| 1 <= i < done2.len()
                                    ==> done2[i] == done[i - 1]);
                            }
                        }
                    }
                }
            }
        }
        Blocklist { entries }
    }

    /// Builds a blocklist from the full text of a blocklist source: one
    /// suffix per line, each brought to canonical form.
    pub fn from_text(text: &Vec<u8>) -> (r: Blocklist)
        ensures
            r@ == normalized_set(split_lines(text@)),
    {
        Blocklist::from_lines(split_text_lines(text))
    }

    /// True exactly when some suffix in the list matches `name` on a label
    /// boundary.
    pub fn matches(&self, name: &Vec<u8>) -> (r: bool)
        ensures
            r == name_blocked(self@, name@),
    {
        let n: usize = self.entries.len();
        let mut i: usize = 0;
        while i < n
            invariant
                0 <= i <= n,
                n == self.entries.len(),
                forall|j: int| 0 <= j < i ==> !boundary_match(name@, self.entries@[j]@),
            decreases n - i,
        {
            if does_end(name, &self.entries[i]) {
                assert(self@.contains(self.entries@[i as int]@));
                return true;
            }
            i += 1;
        }
        proof {
            if name_blocked(self@, name@) {
                let s = choose|s: Seq<u8>| self@.contains(s) && boundary_match(name@, s);
                let k = choose|k: int| 0 <= k < self.entries@.len() && self.entries@[k]@ == s;
                assert(!boundary_match(name@, self.entries@[k]@));
                assert(false);
            }
        }
        false
    }
}

} // verus!
