//! The field selection cycled by a debounced push button.

use vstd::prelude::*;
use vstd::arithmetic::div_mod::{lemma_add_mod_noop, lemma_mod_self_0, lemma_small_mod};
use crate::channel::{sent, LatestValueChannel};

verus! {

/// The field selected after one confirmed press: the next one, and after the
/// last field back to 0, normal mode.
pub open spec fn next_field(field: int, num_fields: int) -> int {
    (field + 1) % (num_fields + 1)
}

/// The field selected after `n` confirmed presses.
pub open spec fn advance_n(field: int, num_fields: int, n: nat) -> int
    decreases n,
{
    if n == 0 {
        field
    } else {
        next_field(advance_n(field, num_fields, (n - 1) as nat), num_fields)
    }
}

proof fn lemma_advance_n_closed(field: int, num_fields: int, n: nat)
    requires
        0 <= field <= num_fields,
    ensures
        advance_n(field, num_fields, n) == (field + n) % (num_fields + 1),
    decreases n,
{
    let m = num_fields + 1;
    if n == 0 {
        lemma_small_mod(field as nat, m as nat);
    } else {
        lemma_advance_n_closed(field, num_fields, (n - 1) as nat);
        lemma_add_mod_noop(field + n - 1, 1, m);
        if m > 1 {
            lemma_small_mod(1, m as nat);
        }
    }
}

/// After one more confirmed press than there are fields, the selection is
/// back where it started.
pub proof fn lemma_full_cycle(field: int, num_fields: int)
    requires
        0 <= field <= num_fields,
    ensures
        advance_n(field, num_fields, (num_fields + 1) as nat) == field,
{
    let m = num_fields + 1;
    lemma_advance_n_closed(field, num_fields, m as nat);
    lemma_add_mod_noop(field, m, m);
    lemma_mod_self_0(m);
    lemma_small_mod(field as nat, m as nat);
}

/// Where the button handling stands between two events.
pub enum ButtonPhase {
    /// Waiting for a press.
    Released,
    /// A falling edge was seen; waiting for the debounce delay to elapse.
    Settling,
    /// A press was confirmed; waiting for the release.
    Held,
}

/// What the button input reports.
pub enum ButtonEvent {
    /// The input went low.
    FallingEdge,
    /// The debounce delay elapsed; `high` is the level then read.
    Settled { high: bool },
    /// The input went high.
    RisingEdge,
}

/// What the task does next.
pub enum ButtonAction {
    /// Keep waiting for the next edge.
    Wait,
    /// Wait out the debounce delay, then report `Settled`.
    Debounce,
    /// A press was confirmed; the new field was published.
    Selected(u32),
}

pub open spec fn phase_is(p: ButtonPhase, q: ButtonPhase) -> bool {
    match (p, q) {
        (ButtonPhase::Released, ButtonPhase::Released) => true,
        (ButtonPhase::Settling, ButtonPhase::Settling) => true,
        (ButtonPhase::Held, ButtonPhase::Held) => true,
        _ => false,
    }
}

/// Whether an event confirms a press: the level is still low once the
/// debounce delay has elapsed.
pub open spec fn confirms(e: ButtonEvent) -> bool {
    match e {
        ButtonEvent::Settled { high } => !high,
        _ => false,
    }
}

/// The phase and field after one event.
pub open spec fn on_event(phase: ButtonPhase, field: int, num_fields: int, e: ButtonEvent) -> (ButtonPhase, int) {
    match (phase, e) {
        (ButtonPhase::Released, ButtonEvent::FallingEdge) => (ButtonPhase::Settling, field),
        (ButtonPhase::Settling, ButtonEvent::Settled { high }) => {
            if high {
                (ButtonPhase::Released, field)
            } else {
                (ButtonPhase::Held, next_field(field, num_fields))
            }
        },
        (ButtonPhase::Held, ButtonEvent::RisingEdge) => (ButtonPhase::Released, field),
        (p, _) => (p, field),
    }
}

/// The phase and field after a sequence of events.
pub open spec fn on_events(phase: ButtonPhase, field: int, num_fields: int, es: Seq<ButtonEvent>) -> (ButtonPhase, int)
    decreases es.len(),
{
    if es.len() == 0 {
        (phase, field)
    } else {
        let (p, f) = on_event(phase, field, num_fields, es[0]);
        on_events(p, f, num_fields, es.drop_first())
    }
}

/// Edges that never stay low for the debounce delay never change the field.
pub proof fn lemma_bounces_ignored(phase: ButtonPhase, field: int, num_fields: int, es: Seq<ButtonEvent>)
    requires
        forall|i: int| 0 <= i < es.len() ==> !confirms(#[trigger] es[i]),
    ensures
        on_events(phase, field, num_fields, es).1 == field,
    decreases es.len(),
{
    if es.len() > 0 {
        assert(!confirms(es[0]));
        let (p, f) = on_event(phase, field, num_fields, es[0]);
        assert forall|i: int| 0 <= i < es.drop_first().len() implies !confirms(
            #[trigger] es.drop_first()[i],
        ) by {
            assert(es.drop_first()[i] == es[i + 1]);
        }
        lemma_bounces_ignored(p, f, num_fields, es.drop_first());
    }
}

/// A press held past the debounce delay and then released advances the
/// field exactly once and leaves the button ready for the next press.
pub proof fn lemma_press_release_advances_once(field: int, num_fields: int)
    ensures
        ({
            let r = on_events(ButtonPhase::Released, field, num_fields, press_cycle());
            phase_is(r.0, ButtonPhase::Released) && r.1 == next_field(field, num_fields)
        }),
{
    let es = press_cycle();
    assert(es.drop_first() =~= seq![ButtonEvent::Settled { high: false }, ButtonEvent::RisingEdge]);
    assert(es.drop_first().drop_first() =~= seq![ButtonEvent::RisingEdge]);
    assert(es.drop_first().drop_first().drop_first() =~= Seq::<ButtonEvent>::empty());
    let nf = next_field(field, num_fields);
    assert(on_events(ButtonPhase::Released, nf, num_fields, Seq::<ButtonEvent>::empty()) == (ButtonPhase::Released, nf));
    assert(on_events(ButtonPhase::Held, nf, num_fields, es.drop_first().drop_first()) == (ButtonPhase::Released, nf));
    assert(on_events(ButtonPhase::Settling, field, num_fields, es.drop_first()) == (ButtonPhase::Released, nf));
}

/// One press held past the debounce delay, then released.
pub open spec fn press_cycle() -> Seq<ButtonEvent> {
    seq![ButtonEvent::FallingEdge, ButtonEvent::Settled { high: false }, ButtonEvent::RisingEdge]
}

/// `k` press-release cycles in a row.
pub open spec fn press_cycles(k: nat) -> Seq<ButtonEvent>
    decreases k,
{
    if k == 0 {
        Seq::empty()
    } else {
        press_cycles((k - 1) as nat) + press_cycle()
    }
}

proof fn lemma_on_events_append(
    phase: ButtonPhase,
    field: int,
    num_fields: int,
    a: Seq<ButtonEvent>,
    b: Seq<ButtonEvent>,
)
    ensures
        on_events(phase, field, num_fields, a + b) == ({
            let (p, f) = on_events(phase, field, num_fields, a);
            on_events(p, f, num_fields, b)
        }),
    decreases a.len(),
{
    if a.len() > 0 {
        let (p, f) = on_event(phase, field, num_fields, a[0]);
        assert((a + b).drop_first() =~= a.drop_first() + b);
        assert((a + b)[0] == a[0]);
        lemma_on_events_append(p, f, num_fields, a.drop_first(), b);
    } else {
        assert(a + b =~= b);
    }
}

/// Each press-release cycle advances the field exactly once: after `k`
/// cycles the field has advanced `k` times and the button is released.
pub proof fn lemma_press_cycles_advance(field: int, num_fields: int, k: nat)
    ensures
        ({
            let r = on_events(ButtonPhase::Released, field, num_fields, press_cycles(k));
            phase_is(r.0, ButtonPhase::Released) && r.1 == advance_n(field, num_fields, k)
        }),
    decreases k,
{
    if k == 0 {
        assert(on_events(ButtonPhase::Released, field, num_fields, press_cycles(0)) == (
            ButtonPhase::Released,
            field,
        ));
    } else {
        let k1 = (k - 1) as nat;
        lemma_press_cycles_advance(field, num_fields, k1);
        lemma_on_events_append(ButtonPhase::Released, field, num_fields, press_cycles(k1), press_cycle());
        let r = on_events(ButtonPhase::Released, field, num_fields, press_cycles(k1));
        assert(r == (ButtonPhase::Released, r.1)) by {
            match r.0 {
                ButtonPhase::Released => {},
                _ => {},
            }
        }
        lemma_press_release_advances_once(r.1, num_fields);
        let r2 = on_events(ButtonPhase::Released, r.1, num_fields, press_cycle());
        assert(r2.1 == next_field(r.1, num_fields));
    }
}

/// After one more press-release cycle than there are fields, the selection
/// is back where it started.
pub proof fn lemma_press_cycles_full_turn(field: int, num_fields: int)
    requires
        0 <= field <= num_fields,
    ensures
        on_events(
            ButtonPhase::Released,
            field,
            num_fields,
            press_cycles((num_fields + 1) as nat),
        ).1 == field,
{
    lemma_press_cycles_advance(field, num_fields, (num_fields + 1) as nat);
    lemma_full_cycle(field, num_fields);
}

/// The selected field, 0 for normal mode or `1..=num_fields`, and the
/// debounce phase of the button that cycles it.
pub struct EditMode {
    field: u32,
    num_fields: u32,
    phase: ButtonPhase,
}

impl EditMode {
    pub closed spec fn field(&self) -> int {
        self.field as int
    }

    pub closed spec fn num_fields(&self) -> int {
        self.num_fields as int
    }

    pub closed spec fn phase(&self) -> ButtonPhase {
        self.phase
    }

    pub closed spec fn wf(&self) -> bool {
        &&& 1 <= self.num_fields < u32::MAX
        &&& self.field <= self.num_fields
    }

    /// Normal mode, button released, with `num_fields` editable fields.
    pub fn new(num_fields: u32) -> (r: Self)
        requires
            1 <= num_fields < u32::MAX,
        ensures
            r.wf(),
            r.field() == 0,
            r.num_fields() == num_fields,
            phase_is(r.phase(), ButtonPhase::Released),
    {
        EditMode { field: 0, num_fields, phase: ButtonPhase::Released }
    }

    pub fn selected(&self) -> (r: u32)
        ensures
            r == self.field(),
    {
        self.field
    }

    /// Moves to the next field, wrapping after the last one to normal mode.
    pub fn advance(&mut self) -> (r: u32)
        requires
            old(self).wf(),
        ensures
            final(self).wf(),
            final(self).num_fields() == old(self).num_fields(),
            final(self).field() == next_field(old(self).field(), old(self).num_fields()),
            r == final(self).field(),
            final(self).phase() == old(self).phase(),
    {
        if self.field == self.num_fields {
            self.field = 0;
            proof {
                lemma_mod_self_0(self.num_fields + 1);
            }
        } else {
            self.field = self.field + 1;
            proof {
                lemma_small_mod((old(self).field + 1) as nat, (self.num_fields + 1) as nat);
            }
        }
        self.field
    }

    /// Handles one button event; a confirmed press publishes the new field
    /// on `out`.
    pub fn handle(&mut self, e: ButtonEvent, out: &mut LatestValueChannel<u32>) -> (r: ButtonAction)
        requires
            old(self).wf(),
            old(out).wf(),
        ensures
            final(self).wf(),
            final(self).num_fields() == old(self).num_fields(),
            (final(self).phase(), final(self).field()) == on_event(
                old(self).phase(),
                old(self).field(),
                old(self).num_fields(),
                e,
            ),
            final(out).wf(),
            final(out).cap() == old(out).cap(),
            match r {
                ButtonAction::Selected(f) => {
                    &&& phase_is(old(self).phase(), ButtonPhase::Settling)
                    &&& confirms(e)
                    &&& f == final(self).field()
                    &&& final(out).pending() == sent(old(out).pending(), old(out).cap(), f)
                },
                ButtonAction::Debounce => {
                    &&& phase_is(final(self).phase(), ButtonPhase::Settling)
                    &&& !phase_is(old(self).phase(), ButtonPhase::Settling)
                    &&& final(out).pending() == old(out).pending()
                },
                ButtonAction::Wait => {
                    &&& !(phase_is(old(self).phase(), ButtonPhase::Settling) && confirms(e))
                    &&& final(out).pending() == old(out).pending()
                },
            },
    {
        match (&self.phase, &e) {
            (ButtonPhase::Released, ButtonEvent::FallingEdge) => {
                self.phase = ButtonPhase::Settling;
                ButtonAction::Debounce
            },
            (ButtonPhase::Settling, ButtonEvent::Settled { high }) => {
                if *high {
                    self.phase = ButtonPhase::Released;
                    ButtonAction::Wait
                } else {
                    self.phase = ButtonPhase::Held;
                    let f = self.advance();
                    out.send(f);
                    ButtonAction::Selected(f)
                }
            },
            (ButtonPhase::Held, ButtonEvent::RisingEdge) => {
                self.phase = ButtonPhase::Released;
                ButtonAction::Wait
            },
            _ => ButtonAction::Wait,
        }
    }
}

} // verus!
