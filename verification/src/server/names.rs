//! The names of key-value-store instances: how they are counted, and
//! which one is next.

use vstd::prelude::*;
use vstd::string::*;
use crate::server::server::ServerView;
use crate::server::servers::{has_name, Servers};
use crate::text::{decimal, decimal_string, lemma_decimal_injective, lemma_decimal_nonempty};

verus! {

/// The `k`-th name that is tried for a key-value-store instance: the base
/// name, then the base name with `-2`, `-3` and so on.
pub open spec fn store_name(k: nat) -> Seq<char> {
    if k <= 1 {
        "redis-server"@
    } else {
        "redis-server-"@ + decimal(k)
    }
}

/// `k` is the first count whose store name no entry has.
pub open spec fn is_next_store(servers: Seq<ServerView>, k: nat) -> bool {
    &&& k >= 1
    &&& !has_name(servers, store_name(k))
    &&& forall|j: nat| 1 <= j < k ==> has_name(servers, #[trigger] store_name(j))
}

/// The first count whose store name no entry has.
pub open spec fn next_store(servers: Seq<ServerView>) -> nat {
    choose|k: nat| is_next_store(servers, k)
}

/// Different counts give different store names.
pub proof fn lemma_store_name_injective(a: nat, b: nat)
    requires
        a >= 1,
        b >= 1,
        store_name(a) == store_name(b),
    ensures
        a == b,
{
    reveal_strlit("redis-server");
    reveal_strlit("redis-server-");
    let base = "redis-server-"@;
    lemma_decimal_nonempty(a);
    lemma_decimal_nonempty(b);
    if a >= 2 && b >= 2 {
        assert((base + decimal(a)).subrange(13, (base + decimal(a)).len() as int) =~= decimal(a));
        assert((base + decimal(b)).subrange(13, (base + decimal(b)).len() as int) =~= decimal(b));
        lemma_decimal_injective(a, b);
    } else if a >= 2 {
        assert((base + decimal(a)).len() >= 14);
    } else if b >= 2 {
        assert((base + decimal(b)).len() >= 14);
    }
}

/// Among as many store names as there are entries, and one more, some
/// name is free.
pub proof fn lemma_store_name_free(servers: Seq<ServerView>, from: nat)
    requires
        from >= 1,
    ensures
        exists|k: nat| from <= k <= from + servers.len() && !has_name(servers, store_name(k)),
    decreases servers.len(),
{
    if has_name(servers, store_name(from)) {
        let i = choose|i: int| 0 <= i < servers.len() && (#[trigger] servers[i]).name == store_name(
            from,
        );
        let rest = servers.remove(i);
        lemma_store_name_free(rest, from + 1);
        let k = choose|k: nat| from + 1 <= k <= from + 1 + rest.len() && !has_name(
            rest,
            store_name(k),
        );
        if has_name(servers, store_name(k)) {
            let j = choose|j: int| 0 <= j < servers.len() && (#[trigger] servers[j]).name
                == store_name(k);
            if j == i {
                lemma_store_name_injective(from, k);
            } else if j < i {
                assert(rest[j] == servers[j]);
            } else {
                assert(rest[j - 1] == servers[j]);
            }
        }
    }
}

/// Only one count is the first whose store name no entry has.
pub proof fn lemma_next_store_is(servers: Seq<ServerView>, k: nat)
    requires
        is_next_store(servers, k),
    ensures
        next_store(servers) == k,
{
}

/// Store instances that enter one after the other are counted up: once
/// an instance has entered under the next free name, the next free name
/// is that of the following count, unless an entry has it already.
pub proof fn lemma_store_names_count_up(servers: Seq<ServerView>, s: ServerView)
    requires
        s.name == store_name(next_store(servers)),
        !has_name(servers, store_name(next_store(servers) + 1)),
    ensures
        next_store(servers.push(s)) == next_store(servers) + 1,
{
    lemma_store_name_free(servers, 1);
    let free = choose|k: nat| 1 <= k <= 1 + servers.len() && !has_name(servers, store_name(k));
    lemma_least_free(servers, free);
    let k = next_store(servers);
    let after = servers.push(s);
    assert(after[servers.len() as int] == s);
    assert forall|j: nat| 1 <= j < k + 1 implies has_name(after, #[trigger] store_name(j)) by {
        if j < k {
            let i = choose|i: int| 0 <= i < servers.len() && (#[trigger] servers[i]).name
                == store_name(j);
            assert(after[i] == servers[i]);
        }
    }
    if has_name(after, store_name(k + 1)) {
        let i = choose|i: int| 0 <= i < after.len() && (#[trigger] after[i]).name == store_name(
            k + 1,
        );
        if i == servers.len() {
            lemma_store_name_injective(k, k + 1);
        }
    }
    lemma_next_store_is(after, k + 1);
}

/// Below a free count there is a first free count.
proof fn lemma_least_free(servers: Seq<ServerView>, free: nat)
    requires
        free >= 1,
        !has_name(servers, store_name(free)),
    ensures
        exists|k: nat| is_next_store(servers, k),
    decreases free,
{
    if forall|j: nat| 1 <= j < free ==> has_name(servers, #[trigger] store_name(j)) {
        assert(is_next_store(servers, free));
    } else {
        let j = choose|j: nat| 1 <= j < free && !has_name(servers, #[trigger] store_name(j));
        lemma_least_free(servers, j);
    }
}

/// In an empty registry the next store name is the base name.
pub proof fn lemma_first_store_name()
    ensures
        next_store(Seq::<ServerView>::empty()) == 1,
        store_name(1) == "redis-server"@,
{
    lemma_next_store_is(Seq::<ServerView>::empty(), 1);
}

impl Servers {
    /// The name for a new key-value-store instance: the first of the base
    /// name, the base name with `-2`, with `-3`, and so on, that no entry
    /// has.
    pub fn next_store_name(&self) -> (name: String)
        ensures
            is_next_store(self@, next_store(self@)),
            name@ == store_name(next_store(self@)),
    {
        let mut counter: u128 = 1;
        let mut name = String::from_str("redis-server");
        proof {
            lemma_store_name_free(self@, 1);
        }
        while self.name_exists(name.as_str())
            invariant
                1 <= counter <= self@.len() + 1,
                self@.len() == self.servers.len(),
                name@ == store_name(counter as nat),
                forall|j: nat| 1 <= j < counter ==> has_name(self@, #[trigger] store_name(j)),
                exists|k: nat| 1 <= k <= 1 + self@.len() && !has_name(self@, store_name(k)),
            decreases self@.len() + 1 - counter,
        {
            counter += 1;
            name = String::from_str("redis-server-");
            name.append(decimal_string(counter).as_str());
        }
        proof {
            lemma_next_store_is(self@, counter as nat);
        }
        name
    }
}

} // verus!
