use vstd::prelude::*;

use crate::text::{append_decimal, decimal};

verus! {

/// The port on which the sending side of a pipeline serves.
pub const SERVING_PORT: i32 = 5200;

/// The message with which allocating an allocated port is refused.
pub open spec fn allocation_refused(port: i32) -> Seq<char> {
    "Port "@ + decimal(port as int) + " cannot be allocated since it it already in use"@
}

/// The message with which freeing a port that is not allocated is refused.
pub open spec fn free_refused(port: i32) -> Seq<char> {
    "Port "@ + decimal(port as int) + " cannot be freed since it was not allocated before"@
}

/// Representing the ports used by the streaming pipelines: the listening ports handed
/// out so far, in the order they were allocated, and the serving port.
pub struct PortPool {
    listening_port_pool: Vec<i32>,
    serving_port: i32,
}

impl PortPool {
    /// The allocated listening ports, in the order they were allocated.
    pub closed spec fn listening(&self) -> Seq<i32> {
        self.listening_port_pool@
    }

    /// The serving port.
    pub closed spec fn serving(&self) -> i32 {
        self.serving_port
    }

    /// No listening port is allocated twice, and the serving port is 5200.
    pub closed spec fn wf(&self) -> bool {
        &&& self.listening_port_pool@.no_duplicates()
        &&& self.serving_port == SERVING_PORT
    }

    /// Initialize a new PortPool: no listening port is allocated and the serving port
    /// is 5200.
    pub fn new() -> (pool: Self)
        ensures
            pool.wf(),
            pool.listening() == Seq::<i32>::empty(),
            pool.serving() == SERVING_PORT,
    {
        PortPool { listening_port_pool: Vec::new(), serving_port: SERVING_PORT }
    }

    fn position(&self, port: i32) -> (r: Option<usize>)
        ensures
            match r {
                Some(i) => i < self.listening().len() && self.listening()[i as int] == port,
                None => !self.listening().contains(port),
            },
    {
        let n = self.listening_port_pool.len();
        let mut i: usize = 0;
        while i < n
            invariant
                n == self.listening_port_pool@.len(),
                0 <= i <= n,
                forall|j: int| 0 <= j < i ==> self.listening_port_pool@[j] != port,
            decreases n - i,
        {
            if self.listening_port_pool[i] == port {
                return Some(i);
            }
            i = i + 1;
        }
        None
    }

    /// Allocate a new port. This port can't be used in another context.
    /// Allocating a port that is already allocated is refused with a message naming it,
    /// and the pool stays as it was; any other port is appended to the pool.
    pub fn allocate_listening_port(&mut self, port: i32) -> (r: Result<(), String>)
        requires
            old(self).wf(),
        ensures
            final(self).wf(),
            final(self).serving() == old(self).serving(),
            old(self).listening().contains(port) ==> {
                &&& r is Err
                &&& r->Err_0@ == allocation_refused(port)
                &&& final(self).listening() == old(self).listening()
            },
            !old(self).listening().contains(port) ==> {
                &&& r is Ok
                &&& final(self).listening() == old(self).listening().push(port)
            },
            final(self).listening() == pool_step(old(self).listening(), PoolCall::Allocate(port)),
    {
        match self.position(port) {
            Some(_) => {
                let mut message = String::new();
                message.append("Port ");
                append_decimal(&mut message, port);
                message.append(" cannot be allocated since it it already in use");
                assert(message@ =~= allocation_refused(port));
                Err(message)
            },
            None => {
                self.listening_port_pool.push(port);
                proof {
                    let s = self.listening_port_pool@;
                    assert forall|i: int, j: int|
                        0 <= i < s.len() && 0 <= j < s.len() && i != j implies s[i] != s[j] by {
                        if i == s.len() - 1 {
                            assert(old(self).listening()[j] == s[j]);
                        } else if j == s.len() - 1 {
                            assert(old(self).listening()[i] == s[i]);
                        }
                    }
                }
                Ok(())
            },
        }
    }

    /// Free an allocated port: it leaves the pool and the other ports keep their order.
    /// Freeing a port that is not allocated is refused with a message naming it, and the
    /// pool stays as it was.
    pub fn free_listening_port(&mut self, port: i32) -> (r: Result<(), String>)
        requires
            old(self).wf(),
        ensures
            final(self).wf(),
            final(self).serving() == old(self).serving(),
            old(self).listening().contains(port) ==> {
                &&& r is Ok
                &&& final(self).listening() == old(self).listening().remove(
                    old(self).listening().index_of(port),
                )
            },
            !old(self).listening().contains(port) ==> {
                &&& r is Err
                &&& r->Err_0@ == free_refused(port)
                &&& final(self).listening() == old(self).listening()
            },
            final(self).listening() == pool_step(old(self).listening(), PoolCall::Free(port)),
    {
        match self.position(port) {
            Some(x) => {
                let ghost old_pool = self.listening_port_pool@;
                proof {
                    let k = old_pool.index_of(port);
                    assert(old_pool.contains(port));
                    assert(old_pool[k] == port);
                    assert(k == x as int);
                }
                self.listening_port_pool.remove(x);
                proof {
                    let s = self.listening_port_pool@;
                    assert(s =~= old_pool.remove(x as int));
                    assert forall|i: int, j: int|
                        0 <= i < s.len() && 0 <= j < s.len() && i != j implies s[i] != s[j] by {
                        let oi = if i < x { i } else { i + 1 };
                        let oj = if j < x { j } else { j + 1 };
                        assert(s[i] == old_pool[oi]);
                        assert(s[j] == old_pool[oj]);
                    }
                }
                Ok(())
            },
            None => {
                let mut message = String::new();
                message.append("Port ");
                append_decimal(&mut message, port);
                message.append(" cannot be freed since it was not allocated before");
                assert(message@ =~= free_refused(port));
                Err(message)
            },
        }
    }

    /// Get the port of the updsink
    pub fn get_serving_port(&self) -> (port: i32)
        ensures
            port == self.serving(),
    {
        self.serving_port
    }

    /// Get all ports currently in use as a udpsrc
    pub fn get_listening_port_pool(&self) -> (pool: &Vec<i32>)
        ensures
            pool@ == self.listening(),
    {
        &self.listening_port_pool
    }
}

} // verus!

verus! {

/// Freeing a port right after allocating it into a pool where it was not allocated gives
/// back the pool as it was.
pub proof fn allocate_then_free_restores(pool: PortPool, port: i32)
    requires
        pool.wf(),
        !pool.listening().contains(port),
    ensures
        ({
            let after = pool.listening().push(port);
            after.remove(after.index_of(port)) == pool.listening()
        }),
{
    let before = pool.listening();
    let after = before.push(port);
    assert(after[before.len() as int] == port);
    assert(after.contains(port));
    let k = after.index_of(port);
    assert(0 <= k < after.len() && after[k] == port);
    if k < before.len() {
        assert(before[k] == port);
        assert(false);
    }
    assert(after.remove(k) =~= before);
}

} // verus!

verus! {

/// Every pool that `new` builds and allocations and frees keep holds no listening port
/// twice, and serves on port 5200.
pub proof fn pool_facts(pool: PortPool)
    requires
        pool.wf(),
    ensures
        pool.listening().no_duplicates(),
        pool.serving() == SERVING_PORT,
{
}

/// A call on a port pool.
pub enum PoolCall {
    Allocate(i32),
    Free(i32),
}

/// The port that a call names.
pub open spec fn call_port(c: PoolCall) -> i32 {
    match c {
        PoolCall::Allocate(p) => p,
        PoolCall::Free(p) => p,
    }
}

/// The listening ports after one call, as `allocate_listening_port` and
/// `free_listening_port` state it.
pub open spec fn pool_step(s: Seq<i32>, c: PoolCall) -> Seq<i32> {
    match c {
        PoolCall::Allocate(p) => if s.contains(p) { s } else { s.push(p) },
        PoolCall::Free(p) => if s.contains(p) { s.remove(s.index_of(p)) } else { s },
    }
}

/// The listening ports after a sequence of calls on a new pool.
pub open spec fn pool_after(calls: Seq<PoolCall>) -> Seq<i32>
    decreases calls.len(),
{
    if calls.len() == 0 {
        Seq::empty()
    } else {
        pool_step(pool_after(calls.drop_last()), calls.last())
    }
}

/// Whether the call at position `i` succeeds (returns `Ok`).
pub open spec fn call_succeeds(calls: Seq<PoolCall>, i: int) -> bool {
    let before = pool_after(calls.take(i));
    match calls[i] {
        PoolCall::Allocate(p) => !before.contains(p),
        PoolCall::Free(p) => before.contains(p),
    }
}

/// The position of the last successful call on port `x`, if any.
pub open spec fn last_success(calls: Seq<PoolCall>, x: i32) -> Option<int>
    decreases calls.len(),
{
    if calls.len() == 0 {
        None
    } else if call_port(calls.last()) == x && call_succeeds(calls, calls.len() - 1) {
        Some(calls.len() - 1)
    } else {
        last_success(calls.drop_last(), x)
    }
}

proof fn lemma_last_success_bounds(calls: Seq<PoolCall>, x: i32)
    ensures
        last_success(calls, x) matches Some(i) ==> 0 <= i < calls.len() && call_port(calls[i]) == x
            && call_succeeds(calls, i),
    decreases calls.len(),
{
    if calls.len() > 0 {
        let prefix = calls.drop_last();
        lemma_last_success_bounds(prefix, x);
        if let Some(i) = last_success(calls, x) {
            if i < calls.len() - 1 {
                assert(calls.take(i) =~= prefix.take(i));
                assert(calls[i] == prefix[i]);
            }
        }
    }
}

/// The listening ports after any sequence of calls on a new pool are exactly the ports
/// whose last successful call was an allocation, each once, in the order of those
/// allocations.
pub proof fn pool_holds_the_allocated_ports(calls: Seq<PoolCall>)
    ensures
        pool_after(calls).no_duplicates(),
        forall|x: i32|
            pool_after(calls).contains(x) <==> (last_success(calls, x) matches Some(i) && calls[i]
                is Allocate),
        forall|a: int, b: int|
            0 <= a < b < pool_after(calls).len() ==> last_success(calls, pool_after(calls)[a])->0
                < last_success(calls, pool_after(calls)[b])->0,
    decreases calls.len(),
{
    if calls.len() > 0 {
        let n = calls.len() - 1;
        let prefix = calls.drop_last();
        let s = pool_after(prefix);
        let t = pool_after(calls);
        let c = calls.last();
        pool_holds_the_allocated_ports(prefix);
        assert(calls.take(n) =~= prefix);
        assert forall|x: i32| call_port(c) != x implies last_success(calls, x) == last_success(prefix, x) by {}
        assert forall|x: i32| (#[trigger] last_success(prefix, x)) is Some implies ({
            let i = last_success(prefix, x)->0;
            0 <= i < n && calls[i] == prefix[i]
        }) by {
            lemma_last_success_bounds(prefix, x);
        }
        let p = call_port(c);
        match c {
            PoolCall::Allocate(q) => {
                if s.contains(q) {
                    assert(t == s);
                    assert(!call_succeeds(calls, n));
                    assert forall|x: i32| last_success(calls, x) == last_success(prefix, x) by {}
                } else {
                    assert(t == s.push(q));
                    assert(call_succeeds(calls, n));
                    assert(last_success(calls, q) == Some(n));
                    assert(t.no_duplicates()) by {
                        assert forall|i: int, j: int|
                            0 <= i < t.len() && 0 <= j < t.len() && i != j implies t[i] != t[j] by {
                            if i == s.len() { assert(s[j] == t[j]); assert(s.contains(s[j])); }
                            else if j == s.len() { assert(s[i] == t[i]); assert(s.contains(s[i])); }
                            else { assert(t[i] == s[i] && t[j] == s[j]); }
                        }
                    }
                    assert forall|x: i32| t.contains(x) <==> (last_success(calls, x) matches Some(i) && calls[i] is Allocate) by {
                        if x == q {
                            assert(t[s.len() as int] == q);
                        } else {
                            if s.contains(x) {
                                let k = choose|k: int| 0 <= k < s.len() && s[k] == x;
                                assert(t[k] == x);
                            }
                            if t.contains(x) {
                                let k = choose|k: int| 0 <= k < t.len() && t[k] == x;
                                assert(k < s.len());
                                assert(s[k] == x);
                            }
                        }
                    }
                    assert forall|a: int, b: int| 0 <= a < b < t.len() implies last_success(calls, t[a])->0
                        < last_success(calls, t[b])->0 by {
                        if b == s.len() {
                            assert(t[a] == s[a]);
                            assert(s.contains(s[a]));
                            assert(t[a] != q);
                            lemma_last_success_bounds(prefix, t[a]);
                        } else {
                            assert(t[a] == s[a] && t[b] == s[b]);
                            assert(s.contains(s[a]) && s.contains(s[b]));
                            assert(s[a] != q && s[b] != q);
                        }
                    }
                }
            },
            PoolCall::Free(q) => {
                if s.contains(q) {
                    let k = s.index_of(q);
                    assert(0 <= k < s.len() && s[k] == q);
                    assert(t == s.remove(k));
                    assert(call_succeeds(calls, n));
                    assert(last_success(calls, q) == Some(n));
                    assert forall|i: int| 0 <= i < t.len() implies #[trigger] t[i] == s[if i < k { i } else { i + 1 }] by {}
                    assert(t.no_duplicates()) by {
                        assert forall|i: int, j: int|
                            0 <= i < t.len() && 0 <= j < t.len() && i != j implies t[i] != t[j] by {
                            let oi = if i < k { i } else { i + 1 };
                            let oj = if j < k { j } else { j + 1 };
                            assert(t[i] == s[oi] && t[j] == s[oj]);
                        }
                    }
                    assert forall|x: i32| t.contains(x) <==> (last_success(calls, x) matches Some(i) && calls[i] is Allocate) by {
                        if x == q {
                            if t.contains(x) {
                                let j = choose|j: int| 0 <= j < t.len() && t[j] == x;
                                let oj = if j < k { j } else { j + 1 };
                                assert(s[oj] == q && oj != k);
                            }
                        } else {
                            if s.contains(x) {
                                let j = choose|j: int| 0 <= j < s.len() && s[j] == x;
                                assert(j != k);
                                let tj = if j < k { j } else { j - 1 };
                                assert(t[tj] == x);
                            }
                            if t.contains(x) {
                                let j = choose|j: int| 0 <= j < t.len() && t[j] == x;
                                let oj = if j < k { j } else { j + 1 };
                                assert(s[oj] == x);
                            }
                        }
                    }
                    assert forall|a: int, b: int| 0 <= a < b < t.len() implies last_success(calls, t[a])->0
                        < last_success(calls, t[b])->0 by {
                        let oa = if a < k { a } else { a + 1 };
                        let ob = if b < k { b } else { b + 1 };
                        assert(t[a] == s[oa] && t[b] == s[ob]);
                        assert(oa < ob);
                        assert(s.contains(s[oa]) && s.contains(s[ob]));
                        assert(s[oa] != q && s[ob] != q);
                    }
                } else {
                    assert(t == s);
                    assert(!call_succeeds(calls, n));
                    assert forall|x: i32| last_success(calls, x) == last_success(prefix, x) by {}
                }
            },
        }
    }
}

} // verus!
