//! Unescaping of the HTML entities that the service leaves in joke text.
use vstd::prelude::*;
use vstd::string::StrSliceExecFns;
use vstd::string::StringExecFns;

verus! {

/// The entity that the service writes in place of a double quote.
pub open spec fn quot_entity() -> Seq<char> {
    seq!['&', 'q', 'u', 'o', 't', ';']
}

/// Whether `s` holds the `&quot;` entity starting at position `i`.
pub open spec fn entity_at(s: Seq<char>, i: int) -> bool {
    0 <= i && i + 6 <= s.len() && s.subrange(i, i + 6) == quot_entity()
}

/// Whether `s` holds no `&quot;` entity anywhere.
pub open spec fn entity_free(s: Seq<char>) -> bool {
    forall|i: int| !#[trigger] entity_at(s, i)
}

/// `s` with every `&quot;` replaced by `"`, scanning left to right.
pub open spec fn unescape(s: Seq<char>) -> Seq<char>
    decreases s.len(),
{
    if s.len() == 0 {
        Seq::empty()
    } else if entity_at(s, 0) {
        seq!['"'] + unescape(s.subrange(6, s.len() as int))
    } else {
        seq![s[0]] + unescape(s.subrange(1, s.len() as int))
    }
}

/// Text without the entity is left as it is.
pub proof fn lemma_unescape_entity_free(s: Seq<char>)
    requires
        entity_free(s),
    ensures
        unescape(s) == s,
    decreases s.len(),
{
    if s.len() > 0 {
        let t = s.subrange(1, s.len() as int);
        assert(!entity_at(s, 0));
        assert forall|i: int| !#[trigger] entity_at(t, i) by {
            if entity_at(t, i) {
                assert(s.subrange(i + 1, i + 7) == t.subrange(i, i + 6));
                assert(entity_at(s, i + 1));
            }
        }
        lemma_unescape_entity_free(t);
        assert(seq![s[0]] + t =~= s);
    }
}

/// Where the unescaped text holds no quote in its first `k` characters,
/// those characters were copied from the input unchanged.
proof fn lemma_unescape_prefix(s: Seq<char>, k: int)
    requires
        0 <= k <= unescape(s).len(),
        forall|j: int| 0 <= j < k ==> unescape(s)[j] != '"',
    ensures
        k <= s.len(),
        s.subrange(0, k) == unescape(s).subrange(0, k),
    decreases s.len(),
{
    if k > 0 {
        let u = unescape(s);
        if entity_at(s, 0) {
            assert(u[0] == '"');
        } else {
            let t = s.subrange(1, s.len() as int);
            let ut = unescape(t);
            assert(u == seq![s[0]] + ut);
            assert forall|j: int| 0 <= j < k - 1 implies ut[j] != '"' by {
                assert(u[j + 1] == ut[j]);
            }
            lemma_unescape_prefix(t, k - 1);
            assert(s.subrange(0, k) =~= u.subrange(0, k)) by {
                assert forall|j: int| 0 <= j < k implies s[j] == u[j] by {
                    if j > 0 {
                        assert(t.subrange(0, k - 1)[j - 1] == ut.subrange(0, k - 1)[j - 1]);
                    }
                }
            }
        }
    } else {
        assert(s.subrange(0, 0) =~= unescape(s).subrange(0, 0));
    }
}

/// Unescaped text holds no entity.
pub proof fn lemma_unescape_entity_free_result(s: Seq<char>)
    ensures
        entity_free(unescape(s)),
    decreases s.len(),
{
    let u = unescape(s);
    if s.len() > 0 {
        if entity_at(s, 0) {
            let t = s.subrange(6, s.len() as int);
            lemma_unescape_entity_free_result(t);
            let ut = unescape(t);
            assert(u == seq!['"'] + ut);
            assert forall|i: int| !#[trigger] entity_at(u, i) by {
                if entity_at(u, i) {
                    if i == 0 {
                        assert(u.subrange(0, 6)[0] == '&');
                    } else {
                        assert(u.subrange(i, i + 6) =~= ut.subrange(i - 1, i + 5));
                        assert(entity_at(ut, i - 1));
                    }
                }
            }
        } else {
            let t = s.subrange(1, s.len() as int);
            lemma_unescape_entity_free_result(t);
            let ut = unescape(t);
            assert(u == seq![s[0]] + ut);
            assert forall|i: int| !#[trigger] entity_at(u, i) by {
                if entity_at(u, i) {
                    if i == 0 {
                        assert forall|j: int| 0 <= j < 5 implies ut[j] != '"' by {
                            assert(u.subrange(0, 6)[j + 1] == ut[j]);
                            assert(quot_entity()[j + 1] != '"');
                        }
                        lemma_unescape_prefix(t, 5);
                        assert(s.subrange(0, 6) =~= u.subrange(0, 6)) by {
                            assert forall|j: int| 0 <= j < 6 implies s[j] == u[j] by {
                                if j > 0 {
                                    assert(t.subrange(0, 5)[j - 1] == ut.subrange(0, 5)[j - 1]);
                                }
                            }
                        }
                        assert(entity_at(s, 0));
                    } else {
                        assert(u.subrange(i, i + 6) =~= ut.subrange(i - 1, i + 5));
                        assert(entity_at(ut, i - 1));
                    }
                }
            }
        }
    }
}

/// Unescaping is idempotent: unescaping text a second time changes nothing.
pub proof fn lemma_unescape_idempotent(s: Seq<char>)
    ensures
        unescape(unescape(s)) == unescape(s),
{
    lemma_unescape_entity_free_result(s);
    lemma_unescape_entity_free(unescape(s));
}

/// Replaces every `&quot;` in `text` by a double quote.
pub fn unescape_quotes(text: &str) -> (r: String)
    ensures
        r@ == unescape(text@),
        entity_free(r@),
{
    let n = text.unicode_len();
    let mut out = String::new();
    let mut i: usize = 0;
    assert(text@.subrange(0, n as int) =~= text@);
    while i < n
        invariant
            n == text@.len(),
            i <= n,
            out@ + unescape(text@.subrange(i as int, n as int)) == unescape(text@),
        decreases n - i,
    {
        let rest = Ghost(text@.subrange(i as int, n as int));
        if 6 <= n - i && is_entity_at(text, i) {
            assert(entity_at(rest@, 0)) by {
                assert(rest@.subrange(0, 6) =~= text@.subrange(i as int, i + 6));
            }
            assert(rest@.subrange(6, rest@.len() as int) =~= text@.subrange(i + 6, n as int));
            out.append("\"");
            proof {
                reveal_strlit("\"");
            }
            i = i + 6;
        } else {
            assert(!entity_at(rest@, 0)) by {
                if i + 6 <= n {
                    assert(rest@.subrange(0, 6) =~= text@.subrange(i as int, i + 6));
                }
            }
            assert(rest@.subrange(1, rest@.len() as int) =~= text@.subrange(i + 1, n as int));
            out.append(text.substring_char(i, i + 1));
            i = i + 1;
        }
        assert(out@ + unescape(text@.subrange(i as int, n as int)) =~= unescape(text@));
    }
    assert(text@.subrange(n as int, n as int) =~= Seq::<char>::empty());
    assert(out@ + Seq::<char>::empty() =~= out@);
    proof {
        lemma_unescape_entity_free_result(text@);
    }
    out
}

/// Whether `text` holds `&quot;` at character position `i`.
fn is_entity_at(text: &str, i: usize) -> (r: bool)
    requires
        i + 6 <= text@.len() <= usize::MAX,
    ensures
        r == (text@.subrange(i as int, i + 6) == quot_entity()),
{
    let pattern = "&quot;";
    proof {
        reveal_strlit("&quot;");
    }
    assert(pattern@ =~= quot_entity());
    let mut j: usize = 0;
    while j < 6
        invariant
            j <= 6,
            i + 6 <= text@.len() <= usize::MAX,
            pattern@ == quot_entity(),
            forall|k: int| 0 <= k < j ==> text@[i + k] == quot_entity()[k],
        decreases 6 - j,
    {
        if text.get_char(i + j) != pattern.get_char(j) {
            assert(text@.subrange(i as int, i + 6)[j as int] != quot_entity()[j as int]);
            return false;
        }
        j = j + 1;
    }
    assert(text@.subrange(i as int, i + 6) =~= quot_entity());
    true
}

} // verus!
