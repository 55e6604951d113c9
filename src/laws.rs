use vstd::prelude::*;
use vstd::arithmetic::div_mod::lemma_add_mod_noop_right;
use crate::clock::{Action, ClockState, HOURS, Key, effect, initial, next, presses, run, valid};

verus! {

/// Running a sequence of presses and then one more press is the same as
/// running the longer sequence.
pub proof fn lemma_run_push(s: ClockState, keys: Seq<Key>, key: Key)
    ensures
        run(s, keys.push(key)) == next(run(s, keys), key),
    decreases keys.len(),
{
    let longer = keys.push(key);
    if keys.len() > 0 {
        assert(longer.drop_first() =~= keys.drop_first().push(key));
        assert(longer[0] == keys[0]);
        lemma_run_push(next(s, keys[0]), keys.drop_first(), key);
    } else {
        assert(longer.drop_first() =~= keys);
        assert(longer[0] == key);
        assert(run(s, longer) == run(next(s, key), keys));
    }
}

/// Where a run of presses from a reachable state ends: the state stays
/// reachable, the simulation runs once a space press has come and never
/// stops, the first space press leaves the hour alone, and every later
/// space press moves it one forward modulo twelve. Other keys count for
/// nothing.
pub proof fn lemma_run(s: ClockState, keys: Seq<Key>)
    requires
        valid(s),
    ensures
        valid(run(s, keys)),
        run(s, keys).active == (s.active || presses(keys) > 0),
        run(s, keys).hour == if s.active {
            (s.hour + presses(keys)) % (HOURS as nat)
        } else if presses(keys) == 0 {
            0
        } else {
            ((presses(keys) - 1) as nat) % (HOURS as nat)
        },
    decreases keys.len(),
{
    if keys.len() > 0 {
        let rest = keys.drop_first();
        let s1 = next(s, keys[0]);
        lemma_run(s1, rest);
        if s.active && keys[0] is Space {
            lemma_add_mod_noop_right(presses(rest) as int, (s.hour + 1) as int, HOURS as int);
        }
    }
}

/// From the start, the simulation runs exactly when at least one space
/// press has come; the hand stays at hour zero through the first press and
/// then counts the space presses after the first, modulo twelve.
pub proof fn lemma_run_from_start(keys: Seq<Key>)
    ensures
        valid(run(initial(), keys)),
        run(initial(), keys).active == (presses(keys) >= 1),
        run(initial(), keys).hour == if presses(keys) <= 1 {
            0
        } else {
            ((presses(keys) - 1) as nat) % (HOURS as nat)
        },
{
    lemma_run(initial(), keys);
}

/// Once the simulation runs it keeps running, whatever keys follow.
pub proof fn lemma_stays_active(s: ClockState, keys: Seq<Key>)
    requires
        valid(s),
        s.active,
    ensures
        run(s, keys).active,
{
    lemma_run(s, keys);
}

/// After any presses from the start, a space press starts the simulation
/// if no space press came before; otherwise it commands the motor to the
/// hour that the press leads to, and touches nothing else.
pub proof fn lemma_press_effect(keys: Seq<Key>)
    ensures
        presses(keys) == 0 ==> effect(run(initial(), keys), Key::Space) == Action::StartPhysics,
        presses(keys) >= 1 ==> effect(run(initial(), keys), Key::Space) == (Action::SetMotor {
            hour: run(initial(), keys.push(Key::Space)).hour as u32,
        }),
{
    lemma_run(initial(), keys);
    lemma_run_push(initial(), keys, Key::Space);
}

/// A key other than space leaves every state as it is and commands
/// nothing.
pub proof fn lemma_other_key_inert(s: ClockState)
    ensures
        next(s, Key::Other) == s,
        effect(s, Key::Other) == Action::Nothing,
{
}

} // verus!
