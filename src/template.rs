//! Substitution of descriptor placeholders in file content.

use vstd::prelude::*;
use crate::text::{chars_of, has_at, matches_at, push_all, string_of};

verus! {

/// `s` with each occurrence of `pat`, found left to right without overlap,
/// replaced by `rep`.
pub open spec fn replace_all(s: Seq<char>, pat: Seq<char>, rep: Seq<char>) -> Seq<char>
    decreases s.len(),
{
    if pat.len() == 0 || s.len() < pat.len() {
        s
    } else if s.subrange(0, pat.len() as int) == pat {
        rep + replace_all(s.subrange(pat.len() as int, s.len() as int), pat, rep)
    } else {
        seq![s[0]] + replace_all(s.drop_first(), pat, rep)
    }
}

pub open spec fn occurs(s: Seq<char>, pat: Seq<char>) -> bool {
    exists|i: int| #[trigger] has_at(s, i, pat)
}

/// Text in which `pat` does not occur is left as it is.
pub proof fn lemma_replace_absent(s: Seq<char>, pat: Seq<char>, rep: Seq<char>)
    requires
        !occurs(s, pat),
    ensures
        replace_all(s, pat, rep) == s,
    decreases s.len(),
{
    if pat.len() == 0 || s.len() < pat.len() {
    } else {
        assert(!has_at(s, 0, pat));
        let t = s.drop_first();
        assert forall|i: int| !has_at(t, i, pat) by {
            if has_at(t, i, pat) {
                assert(s.subrange(i + 1, i + 1 + pat.len()) =~= t.subrange(i, i + pat.len()));
                assert(has_at(s, i + 1, pat));
            }
        }
        lemma_replace_absent(t, pat, rep);
        assert(seq![s[0]] + t =~= s);
    }
}

/// `s` with each occurrence of `pat` replaced by `rep`.
pub fn replace(s: &Vec<char>, pat: &Vec<char>, rep: &Vec<char>) -> (r: Vec<char>)
    ensures
        r@ == replace_all(s@, pat@, rep@),
{
    let mut out: Vec<char> = Vec::new();
    if pat.len() == 0 {
        push_all(&mut out, s);
        assert(out@ =~= s@);
        return out;
    }
    let mut i: usize = 0;
    assert(s@.subrange(0, s@.len() as int) =~= s@);
    assert(out@ + replace_all(s@, pat@, rep@) =~= replace_all(s@, pat@, rep@));
    while i < s.len()
        invariant
            pat@.len() > 0,
            i <= s@.len(),
            out@ + replace_all(s@.subrange(i as int, s@.len() as int), pat@, rep@)
                == replace_all(s@, pat@, rep@),
        decreases s@.len() - i,
    {
        let ghost rest = s@.subrange(i as int, s@.len() as int);
        if matches_at(s, i, pat) {
            assert(rest.subrange(0, pat@.len() as int) =~= pat@);
            assert(rest.subrange(pat@.len() as int, rest.len() as int)
                =~= s@.subrange(i + pat@.len(), s@.len() as int));
            push_all(&mut out, rep);
            i = i + pat.len();
            assert(out@ + replace_all(s@.subrange(i as int, s@.len() as int), pat@, rep@)
                =~= replace_all(s@, pat@, rep@));
        } else {
            proof {
                if rest.len() >= pat@.len() {
                    assert(rest.subrange(0, pat@.len() as int) =~= s@.subrange(i as int, i + pat@.len()));
                }
            }
            assert(rest.drop_first() =~= s@.subrange(i + 1, s@.len() as int));
            out.push(s[i]);
            i = i + 1;
            assert(out@ + replace_all(s@.subrange(i as int, s@.len() as int), pat@, rep@)
                =~= replace_all(s@, pat@, rep@));
        }
    }
    assert(out@ =~= replace_all(s@, pat@, rep@));
    out
}

pub open spec fn name_placeholder() -> Seq<char> {
    "@PLUGIN_NAME@"@
}

pub open spec fn version_placeholder() -> Seq<char> {
    "@PLUGIN_VERSION@"@
}

pub open spec fn key_placeholder() -> Seq<char> {
    "@PLUGIN_KEY@"@
}

/// The full plugin name: `<key>-<version>`.
pub open spec fn full_name(key: Seq<char>, version: Seq<char>) -> Seq<char> {
    key + "-"@ + version
}

/// The content with the name, version and key placeholders replaced, in that order.
pub open spec fn filled(content: Seq<char>, key: Seq<char>, version: Seq<char>) -> Seq<char> {
    let named = replace_all(content, name_placeholder(), full_name(key, version));
    let versioned = replace_all(named, version_placeholder(), version);
    replace_all(versioned, key_placeholder(), key)
}

pub open spec fn has_placeholder(content: Seq<char>) -> bool {
    occurs(content, name_placeholder()) || occurs(content, version_placeholder())
        || occurs(content, key_placeholder())
}

/// `content` with the descriptor's placeholders replaced.
pub fn fill_placeholders(content: &str, key: &str, version: &str) -> (r: String)
    ensures
        r@ == filled(content@, key@, version@),
{
    let mut name = chars_of(key);
    push_all(&mut name, &chars_of("-"));
    push_all(&mut name, &chars_of(version));
    let named = replace(&chars_of(content), &chars_of("@PLUGIN_NAME@"), &name);
    let versioned = replace(&named, &chars_of("@PLUGIN_VERSION@"), &chars_of(version));
    string_of(&replace(&versioned, &chars_of("@PLUGIN_KEY@"), &chars_of(key)))
}

/// Content that holds no placeholder comes back unchanged.
pub proof fn lemma_fill_without_placeholders(content: Seq<char>, key: Seq<char>, version: Seq<char>)
    requires
        !has_placeholder(content),
    ensures
        filled(content, key, version) == content,
{
    lemma_replace_absent(content, name_placeholder(), full_name(key, version));
    lemma_replace_absent(content, version_placeholder(), version);
    lemma_replace_absent(content, key_placeholder(), key);
}

/// Filling twice gives what filling once gave, wherever filling once left no
/// placeholder behind.
pub proof fn lemma_fill_idempotent(content: Seq<char>, key: Seq<char>, version: Seq<char>)
    requires
        !has_placeholder(filled(content, key, version)),
    ensures
        filled(filled(content, key, version), key, version) == filled(content, key, version),
{
    lemma_fill_without_placeholders(filled(content, key, version), key, version);
}

} // verus!
