//! Ordered key/value lists with unique keys, the in-memory shape of the
//! dependency registry and of a parsed properties file.

use vstd::prelude::*;

use crate::text::str_eq;

verus! {

/// The value stored under a key, searched from the front; with unique
/// keys at most one entry matches.
pub open spec fn kv_lookup(entries: Seq<(String, String)>, key: Seq<char>) -> Option<Seq<char>>
    decreases entries.len(),
{
    if entries.len() == 0 {
        None
    } else if entries[0].0@ == key {
        Some(entries[0].1@)
    } else {
        kv_lookup(entries.drop_first(), key)
    }
}

/// Each key occurs at most once.
pub open spec fn kv_unique(entries: Seq<(String, String)>) -> bool {
    forall|i: int, j: int|
        #![trigger entries[i], entries[j]]
        0 <= i < j < entries.len() ==> entries[i].0@ != entries[j].0@
}

/// Replacing the entry that holds `key` (keeping its key) rewrites that
/// key's value and leaves every other lookup unchanged.
pub proof fn lemma_kv_update(pre: Seq<(String, String)>, post: Seq<(String, String)>, k: int)
    requires
        0 <= k < pre.len(),
        post.len() == pre.len(),
        forall|i: int| 0 <= i < pre.len() && i != k ==> post[i] == pre[i],
        pre[k].0@ == post[k].0@,
        forall|i: int| 0 <= i < k ==> pre[i].0@ != post[k].0@,
    ensures
        kv_lookup(post, post[k].0@) == Some(post[k].1@),
        forall|n: Seq<char>| n != post[k].0@ ==> kv_lookup(post, n) == kv_lookup(pre, n),
    decreases pre.len(),
{
    if k == 0 {
        assert(post.drop_first() =~= pre.drop_first());
        assert forall|n: Seq<char>| n != post[0].0@ implies kv_lookup(post, n) == kv_lookup(
            pre,
            n,
        ) by {
            assert(pre[0].0@ == post[0].0@);
        }
    } else {
        lemma_kv_update(pre.drop_first(), post.drop_first(), k - 1);
        assert(post.drop_first()[k - 1] == post[k]);
        assert(pre.drop_first()[k - 1] == pre[k]);
        assert(post[0] == pre[0]);
        assert(pre[0].0@ != post[k].0@);
        assert(kv_lookup(post, post[k].0@) == Some(post[k].1@));
        assert forall|n: Seq<char>| n != post[k].0@ implies kv_lookup(post, n) == kv_lookup(
            pre,
            n,
        ) by {
            if post[0].0@ != n {
                assert(kv_lookup(post, n) == kv_lookup(post.drop_first(), n));
                assert(kv_lookup(pre, n) == kv_lookup(pre.drop_first(), n));
            }
        }
    }
}

/// Appending a fresh key makes it resolvable and leaves every other
/// lookup unchanged.
pub proof fn lemma_kv_append(pre: Seq<(String, String)>, post: Seq<(String, String)>)
    requires
        post.len() == pre.len() + 1,
        forall|i: int| 0 <= i < pre.len() ==> post[i] == pre[i],
        forall|i: int| 0 <= i < pre.len() ==> pre[i].0@ != post[pre.len() as int].0@,
    ensures
        kv_lookup(post, post[pre.len() as int].0@) == Some(post[pre.len() as int].1@),
        forall|n: Seq<char>|
            n != post[pre.len() as int].0@ ==> kv_lookup(post, n) == kv_lookup(pre, n),
    decreases pre.len(),
{
    let last = post[pre.len() as int];
    if pre.len() == 0 {
        assert(kv_lookup(post, last.0@) == Some(last.1@));
        assert forall|n: Seq<char>| n != last.0@ implies kv_lookup(post, n) == kv_lookup(
            pre,
            n,
        ) by {
            assert(kv_lookup(post.drop_first(), n) is None);
            assert(kv_lookup(pre, n) is None);
        }
    } else {
        lemma_kv_append(pre.drop_first(), post.drop_first());
        assert(post.drop_first()[pre.len() - 1] == last);
        assert(post[0] == pre[0]);
        assert(pre[0].0@ != last.0@);
        assert(kv_lookup(post, last.0@) == Some(last.1@));
        assert forall|n: Seq<char>| n != last.0@ implies kv_lookup(post, n) == kv_lookup(
            pre,
            n,
        ) by {
            if post[0].0@ != n {
                assert(kv_lookup(post, n) == kv_lookup(post.drop_first(), n));
                assert(kv_lookup(pre, n) == kv_lookup(pre.drop_first(), n));
            }
        }
    }
}

/// The value stored under a key, or `None`.
pub fn kv_get<'a>(entries: &'a Vec<(String, String)>, key: &str) -> (r: Option<&'a String>)
    ensures
        match r {
            Some(p) => kv_lookup(entries@, key@) == Some(p@),
            None => kv_lookup(entries@, key@) is None,
        },
{
    proof {
        assert(entries@.skip(0) =~= entries@);
    }
    let mut k: usize = 0;
    while k < entries.len()
        invariant
            k <= entries@.len(),
            kv_lookup(entries@, key@) == kv_lookup(entries@.skip(k as int), key@),
        decreases entries@.len() - k,
    {
        proof {
            assert(entries@.skip(k as int).drop_first() =~= entries@.skip(k as int + 1));
            assert(entries@.skip(k as int)[0] == entries@[k as int]);
        }
        if str_eq(entries[k].0.as_str(), key) {
            return Some(&entries[k].1);
        }
        k = k + 1;
    }
    proof {
        assert(entries@.skip(entries@.len() as int).len() == 0);
    }
    None
}

/// Store `value` under `key`: re-point the key when it exists, append the
/// pair when it does not. Every other entry is untouched.
pub fn kv_upsert(entries: &mut Vec<(String, String)>, key: String, value: String)
    requires
        kv_unique(old(entries)@),
    ensures
        kv_unique(final(entries)@),
        kv_lookup(final(entries)@, key@) == Some(value@),
        forall|n: Seq<char>|
            n != key@ ==> kv_lookup(final(entries)@, n) == kv_lookup(old(entries)@, n),
{
    let ghost pre = entries@;
    let mut k: usize = 0;
    while k < entries.len()
        invariant
            kv_unique(pre),
            entries@ == pre,
            pre == old(entries)@,
            k <= pre.len(),
            forall|i: int| 0 <= i < k ==> pre[i].0@ != key@,
        decreases pre.len() - k,
    {
        if str_eq(entries[k].0.as_str(), key.as_str()) {
            entries.set(k, (key, value));
            proof {
                let post = entries@;
                lemma_kv_update(pre, post, k as int);
                assert forall|i: int, j: int|
                    #![trigger post[i], post[j]]
                    0 <= i < j < post.len() implies post[i].0@ != post[j].0@ by {
                    assert(post[i].0@ == pre[i].0@);
                    assert(post[j].0@ == pre[j].0@);
                    assert(pre[i].0@ != pre[j].0@);
                }
            }
            return ;
        }
        k = k + 1;
    }
    entries.push((key, value));
    proof {
        let post = entries@;
        lemma_kv_append(pre, post);
        assert forall|i: int, j: int|
            #![trigger post[i], post[j]]
            0 <= i < j < post.len() implies post[i].0@ != post[j].0@ by {
            if j < pre.len() {
                assert(pre[i].0@ != pre[j].0@);
            } else {
                assert(post[i].0@ == pre[i].0@);
            }
        }
    }
}

/// Rewrite the value under an existing key. Returns `false`, changing
/// nothing, when the key is absent.
pub fn kv_replace(entries: &mut Vec<(String, String)>, key: String, value: String) -> (r: bool)
    requires
        kv_unique(old(entries)@),
    ensures
        kv_unique(final(entries)@),
        r == (kv_lookup(old(entries)@, key@) is Some),
        r ==> kv_lookup(final(entries)@, key@) == Some(value@) && forall|n: Seq<char>|
            n != key@ ==> kv_lookup(final(entries)@, n) == kv_lookup(old(entries)@, n),
        !r ==> *final(entries) == *old(entries),
{
    proof {
        assert(old(entries)@.skip(0) =~= old(entries)@);
    }
    let ghost pre = entries@;
    let mut k: usize = 0;
    while k < entries.len()
        invariant
            kv_unique(pre),
            *entries == *old(entries),
            entries@ == pre,
            k <= pre.len(),
            forall|i: int| 0 <= i < k ==> pre[i].0@ != key@,
            kv_lookup(pre, key@) == kv_lookup(pre.skip(k as int), key@),
        decreases pre.len() - k,
    {
        proof {
            assert(pre.skip(k as int).drop_first() =~= pre.skip(k as int + 1));
            assert(pre.skip(k as int)[0] == pre[k as int]);
        }
        if str_eq(entries[k].0.as_str(), key.as_str()) {
            entries.set(k, (key, value));
            proof {
                let post = entries@;
                lemma_kv_update(pre, post, k as int);
                assert forall|i: int, j: int|
                    #![trigger post[i], post[j]]
                    0 <= i < j < post.len() implies post[i].0@ != post[j].0@ by {
                    assert(post[i].0@ == pre[i].0@);
                    assert(post[j].0@ == pre[j].0@);
                    assert(pre[i].0@ != pre[j].0@);
                }
            }
            return true;
        }
        k = k + 1;
    }
    proof {
        assert(pre.skip(pre.len() as int).len() == 0);
    }
    false
}

} // verus!
