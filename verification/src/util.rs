//! Small verified helpers on strings and vectors of strings.
use vstd::prelude::*;

verus! {

/// Character-for-character equality of two string slices.
pub fn str_eq(a: &str, b: &str) -> (r: bool)
    ensures
        r == (a@ == b@),
{
    let sa: String = a.to_owned();
    let sb: String = b.to_owned();
    sa == sb
}

/// A vector holding the single string `s`.
pub fn single_string(s: &str) -> (v: Vec<String>)
    ensures
        v.deep_view() == seq![s@],
{
    let mut v: Vec<String> = Vec::new();
    v.push(s.to_owned());
    proof {
        assert(v.deep_view() =~= seq![s@]);
    }
    v
}

/// A vector holding no strings.
pub fn no_strings() -> (v: Vec<String>)
    ensures
        v.deep_view() == Seq::<Seq<char>>::empty(),
{
    let v: Vec<String> = Vec::new();
    proof {
        assert(v.deep_view() =~= Seq::<Seq<char>>::empty());
    }
    v
}

/// Moves every element of `src` onto the end of `dst`.
pub fn append_all(dst: &mut Vec<String>, src: Vec<String>)
    ensures
        final(dst).deep_view() == old(dst).deep_view() + src.deep_view(),
{
    let ghost src0 = src;
    let mut s = src;
    dst.append(&mut s);
    proof {
        assert(dst.deep_view() =~= old(dst).deep_view() + src0.deep_view());
    }
}

/// Does `v` hold a string equal to `s`?
pub fn contains_string(v: &Vec<String>, s: &str) -> (r: bool)
    ensures
        r == v.deep_view().contains(s@),
{
    let mut i: usize = 0;
    while i < v.len()
        invariant
            i <= v.len(),
            forall|k: int| 0 <= k < i ==> v.deep_view()[k] != s@,
        decreases v.len() - i,
    {
        if str_eq(v[i].as_str(), s) {
            proof {
                assert(v.deep_view()[i as int] == s@);
            }
            return true;
        }
        i = i + 1;
    }
    proof {
        assert(forall|k: int| 0 <= k < v.deep_view().len() ==> v.deep_view()[k] != s@);
    }
    false
}

} // verus!
