use vstd::prelude::*;

verus! {

/// The byte value of `'.'`, the label separator and terminator of a
/// fully-qualified DNS name.
pub const DOT: u8 = 46;

/// The byte value of `'\n'`, the separator between blocklist lines.
pub const LF: u8 = 10;

/// An ASCII whitespace byte, as trimmed from the ends of a blocklist line:
/// space, horizontal tab, line feed, vertical tab, form feed, carriage return.
pub open spec fn is_space(b: u8) -> bool {
    b == 32 || (9 <= b && b <= 13)
}

/// True exactly when `name` ends with the `'.'` terminator.
pub open spec fn is_dot_terminated(name: Seq<u8>) -> bool {
    name.len() > 0 && name[name.len() - 1] == DOT
}

/// `s` with its leading whitespace removed.
pub open spec fn trim_front(s: Seq<u8>) -> Seq<u8>
    decreases s.len(),
{
    if s.len() > 0 && is_space(s[0]) {
        trim_front(s.drop_first())
    } else {
        s
    }
}

/// `s` with its trailing whitespace removed.
pub open spec fn trim_back(s: Seq<u8>) -> Seq<u8>
    decreases s.len(),
{
    if s.len() > 0 && is_space(s[s.len() - 1]) {
        trim_back(s.drop_last())
    } else {
        s
    }
}

/// `s` with whitespace removed from both ends.
pub open spec fn trimmed(s: Seq<u8>) -> Seq<u8> {
    trim_back(trim_front(s))
}

/// The canonical form of a blocklist line: trimmed, then dot-terminated.
pub open spec fn normalized(line: Seq<u8>) -> Seq<u8> {
    let t = trimmed(line);
    if is_dot_terminated(t) {
        t
    } else {
        t.push(DOT)
    }
}

/// Runtime test for ASCII whitespace.
pub fn is_space_byte(b: u8) -> (r: bool)
    ensures
        r == is_space(b),
{
    b == 32 || (9 <= b && b <= 13)
}

/// Runtime check that a name is dot-terminated.
pub fn dot_terminated(name: &Vec<u8>) -> (r: bool)
    ensures
        r == is_dot_terminated(name@),
{
    name.len() > 0 && name[name.len() - 1] == DOT
}

/// Byte-for-byte equality of two names.
pub fn bytes_eq(a: &Vec<u8>, b: &Vec<u8>) -> (r: bool)
    ensures
        r == (a@ == b@),
{
    if a.len() != b.len() {
        return false;
    }
    let n: usize = a.len();
    let mut i: usize = 0;
    while i < n
        invariant
            n == a.len() == b.len(),
            0 <= i <= n,
            forall|j: int| 0 <= j < i ==> a@[j] == b@[j],
        decreases n - i,
    {
        if a[i] != b[i] {
            return false;
        }
        i += 1;
    }
    assert(a@ =~= b@);
    true
}

/// A fresh copy of a name.
pub fn copy_bytes(v: &Vec<u8>) -> (r: Vec<u8>)
    ensures
        r@ == v@,
{
    let mut r: Vec<u8> = Vec::new();
    let n: usize = v.len();
    let mut i: usize = 0;
    while i < n
        invariant
            0 <= i <= n,
            n == v.len(),
            r@ =~= v@.subrange(0, i as int),
        decreases n - i,
    {
        r.push(v[i]);
        assert(r@ =~= v@.subrange(0, i + 1));
        i += 1;
    }
    assert(r@ =~= v@);
    r
}

/// Removes leading and trailing whitespace from `line`, in place.
pub fn trim_in_place(line: &mut Vec<u8>)
    ensures
        final(line)@ == trimmed(old(line)@),
{
    loop
        invariant
            trim_front(line@) == trim_front(old(line)@),
        ensures
            line@ == trim_front(old(line)@),
        decreases line@.len(),
    {
        if line.len() == 0 || !is_space_byte(line[0]) {
            break;
        }
        let ghost prev = line@;
        line.remove(0);
        assert(line@ =~= prev.drop_first());
    }
    loop
        invariant
            trim_back(line@) == trim_back(trim_front(old(line)@)),
        ensures
            line@ == trimmed(old(line)@),
        decreases line@.len(),
    {
        if line.len() == 0 || !is_space_byte(line[line.len() - 1]) {
            break;
        }
        let ghost prev = line@;
        line.pop();
        assert(line@ =~= prev.drop_last());
    }
}

/// Brings a blocklist line to canonical form: trims whitespace and appends
/// the `'.'` terminator if it is missing.
pub fn normalize_line(line: &mut Vec<u8>)
    ensures
        final(line)@ == normalized(old(line)@),
{
    trim_in_place(line);
    if !dot_terminated(line) {
        line.push(DOT);
    }
}

} // verus!
