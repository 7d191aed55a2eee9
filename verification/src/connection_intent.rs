//! The user's standing decision whether the mobile connection should be up.

use vstd::prelude::*;

verus! {

/// The number of decisions after which the decision counter starts over.
pub open spec fn turn() -> int {
    0x8000_0000_0000_0000
}

/// The counter value after the decision `enabled` is taken on top of `value`:
/// the decision number grows by one (modulo [`turn`]), the low bit is the decision.
pub open spec fn decided(value: u64, enabled: bool) -> u64 {
    (((value / 2 + 1) % turn()) * 2 + if enabled { 1int } else { 0int }) as u64
}

/// Whether the decision held in `value` is to be connected.
pub open spec fn wants_connection(value: u64) -> bool {
    value % 2 == 1
}

/// Whether work that was started under `token` may go on under `value`.
pub open spec fn permits(value: u64, token: u64) -> bool {
    wants_connection(token) && token == value
}

/// The counter value after all of `decisions` are taken, in order.
pub open spec fn decided_all(value: u64, decisions: Seq<bool>) -> u64
    decreases decisions.len(),
{
    if decisions.len() == 0 {
        value
    } else {
        decided(decided_all(value, decisions.drop_last()), decisions.last())
    }
}

/// A new user decision invalidates work started under the previous decision.
/// The low bit is the desired state; the other bits identify the decision.
#[derive(Debug, Clone, Copy)]
pub struct ConnectionIntent(u64);

impl View for ConnectionIntent {
    type V = u64;

    closed spec fn view(&self) -> u64 {
        self.0
    }
}

impl Default for ConnectionIntent {
    /// Starts with the decision not to be connected.
    fn default() -> (r: Self)
        ensures
            r@ == 0,
    {
        ConnectionIntent(0)
    }
}

impl ConnectionIntent {
    /// Takes a new decision.
    pub fn set_enabled(&mut self, enabled: bool)
        ensures
            final(self)@ == decided(old(self)@, enabled),
    {
        let value = self.0;
        let bit: u64 = if enabled {
            1
        } else {
            0
        };
        let stepped = value.wrapping_add(2);
        proof {
            assert(bit == 0 || bit == 1);
            assert(stepped == (value + 2) % 0x1_0000_0000_0000_0000);
            assert(stepped & !1u64 == stepped - stepped % 2) by (bit_vector);
            assert((stepped & !1u64) | bit == (stepped & !1u64) + bit) by (bit_vector)
                requires
                    bit == 0 || bit == 1,
            ;
            assert(((value / 2 + 1) % turn()) * 2 == stepped - stepped % 2);
        }
        self.0 = (stepped & !1u64) | bit;
    }

    /// Identifies the decision that stands now.
    pub fn token(&self) -> (r: u64)
        ensures
            r == self@,
    {
        self.0
    }

    /// Whether the standing decision is to be connected.
    pub fn enabled(&self) -> (r: bool)
        ensures
            r == wants_connection(self@),
    {
        let token = self.token();
        assert(token & 1 == token % 2) by (bit_vector);
        token & 1 == 1
    }

    /// Whether work that was started under `token` may still go on.
    pub fn allows(&self, token: u64) -> (r: bool)
        ensures
            r == permits(self@, token),
    {
        assert(token & 1 == token % 2) by (bit_vector);
        token & 1 == 1 && token == self.token()
    }
}

/// After any number of decisions the counter holds the number of the last one
/// and, in its low bit, what that one was.
pub proof fn decisions_are_counted(value: u64, decisions: Seq<bool>)
    ensures
        decided_all(value, decisions) / 2 == (value / 2 + decisions.len()) % turn(),
        wants_connection(decided_all(value, decisions)) == if decisions.len() == 0 {
            wants_connection(value)
        } else {
            decisions.last()
        },
    decreases decisions.len(),
{
    if decisions.len() > 0 {
        let before = decided_all(value, decisions.drop_last());
        let number = value / 2 + decisions.len() - 1;
        decisions_are_counted(value, decisions.drop_last());
        assert(before / 2 == number % turn());
        assert((number % turn() + 1) % turn() == (number + 1) % turn());
        let after = decided(before, decisions.last());
        assert(after / 2 == (before / 2 + 1) % turn());
    } else {
        assert(value / 2 < turn());
    }
}

/// Work started under one decision is permitted after further decisions only if
/// those went once round the whole counter and ended where they began: any
/// fewer decisions, a stop and a restart among them, never revive it.
pub proof fn later_decisions_do_not_revive_old_work(value: u64, decisions: Seq<bool>)
    ensures
        permits(decided_all(value, decisions), value) <==> {
            &&& wants_connection(value)
            &&& (decisions.len() as int) % turn() == 0
            &&& decisions.len() == 0 || decisions.last()
        },
        0 < decisions.len() < turn() ==> !permits(decided_all(value, decisions), value),
{
    decisions_are_counted(value, decisions);
    let after = decided_all(value, decisions);
    assert(after == value <==> after / 2 == value / 2 && after % 2 == value % 2);
    assert((value / 2 + decisions.len()) % turn() == value / 2 <==> (decisions.len() as int)
        % turn() == 0);
}

/// While the standing decision is to stop, no token at all is permitted.
pub proof fn nothing_is_permitted_after_a_stop(value: u64, token: u64)
    ensures
        !permits(decided(value, false), token),
{
}

/// Work may go on exactly under the decision it was started under, and only if that
/// decision is to be connected.
pub proof fn work_goes_on_under_its_own_decision_only(value: u64, token: u64)
    ensures
        permits(value, value) <==> wants_connection(value),
        permits(value, token) ==> value == token && wants_connection(value),
{
}

/// A decision is what it says, and is another one than the decision before; without
/// any, the user does not want to be connected.
pub proof fn every_decision_is_a_new_one(value: u64, enabled: bool)
    ensures
        wants_connection(decided(value, enabled)) == enabled,
        decided(value, enabled) != value,
        decided(value, enabled) / 2 != value / 2,
        !wants_connection(0),
{
    decisions_are_counted(value, seq![enabled]);
    assert(seq![enabled].drop_last() =~= Seq::empty());
    assert(decided_all(value, seq![enabled].drop_last()) == value);
    assert(decided_all(value, seq![enabled]) == decided(value, enabled));
}

} // verus!
