//! The key events that a controller input's mapping produces when the input is
//! pressed and released, and the per-frame step of the polling loop.
use vstd::prelude::*;
use crate::keys::{key_code, parse_key_string};
use crate::profile::{find_mapping, lookup, mappings_view, slots_view};
use crate::text::{chars_of, lowercase_of, split_chars, split_on, string_of, views_of};

verus! {

/// A synthesized keyboard event: the virtual-key code and whether the key goes up.
#[derive(Clone, Copy, Debug, PartialEq, Eq, Structural)]
pub struct KeyEvent {
    pub code: u16,
    pub up: bool,
}

/// The event for one `+`-separated part of a key combination: none when the
/// part names no key.
pub open spec fn part_event(part: Seq<char>, up: bool) -> Seq<KeyEvent> {
    match key_code(lowercase_of(part)) {
        Some(code) => seq![KeyEvent { code, up }],
        None => Seq::empty(),
    }
}

/// Key-down events for the parts, first part first.
pub open spec fn parts_down(parts: Seq<Seq<char>>) -> Seq<KeyEvent>
    decreases parts.len(),
{
    if parts.len() == 0 {
        Seq::empty()
    } else {
        part_event(parts[0], false) + parts_down(parts.drop_first())
    }
}

/// Key-up events for the parts, last part first.
pub open spec fn parts_up(parts: Seq<Seq<char>>) -> Seq<KeyEvent>
    decreases parts.len(),
{
    if parts.len() == 0 {
        Seq::empty()
    } else {
        part_event(parts.last(), true) + parts_up(parts.drop_last())
    }
}

/// Key-down events of one slot: none for an empty slot.
pub open spec fn slot_down(slot: Seq<char>) -> Seq<KeyEvent> {
    if slot.len() == 0 {
        Seq::empty()
    } else {
        parts_down(split_on(slot, '+'))
    }
}

/// Key-up events of one slot: none for an empty slot.
pub open spec fn slot_up(slot: Seq<char>) -> Seq<KeyEvent> {
    if slot.len() == 0 {
        Seq::empty()
    } else {
        parts_up(split_on(slot, '+'))
    }
}

/// The events sent when an input with these slots is pressed: the slots in
/// order, each slot's parts in order, all keys going down.
pub open spec fn press_events(slots: Seq<Seq<char>>) -> Seq<KeyEvent>
    decreases slots.len(),
{
    if slots.len() == 0 {
        Seq::empty()
    } else {
        slot_down(slots[0]) + press_events(slots.drop_first())
    }
}

/// The events sent when an input with these slots is released: the last slot
/// first, each slot's last part first, all keys going up.
pub open spec fn release_events(slots: Seq<Seq<char>>) -> Seq<KeyEvent>
    decreases slots.len(),
{
    if slots.len() == 0 {
        Seq::empty()
    } else {
        slot_up(slots.last()) + release_events(slots.drop_last())
    }
}

/// The same events with every key going up.
pub open spec fn lifted(evs: Seq<KeyEvent>) -> Seq<KeyEvent> {
    evs.map_values(|e: KeyEvent| KeyEvent { code: e.code, up: true })
}

proof fn lemma_lifted_concat(a: Seq<KeyEvent>, b: Seq<KeyEvent>)
    ensures
        lifted(a + b) == lifted(a) + lifted(b),
{
    assert(lifted(a + b) =~= lifted(a) + lifted(b));
}

proof fn lemma_reverse_concat(a: Seq<KeyEvent>, b: Seq<KeyEvent>)
    ensures
        (a + b).reverse() == b.reverse() + a.reverse(),
{
    assert((a + b).reverse() =~= b.reverse() + a.reverse());
}

proof fn lemma_part_mirror(part: Seq<char>)
    ensures
        part_event(part, true) == lifted(part_event(part, false).reverse()),
{
    let d = part_event(part, false);
    assert(d.reverse() =~= d);
    assert(part_event(part, true) =~= lifted(d));
}

proof fn lemma_parts_up_front(parts: Seq<Seq<char>>)
    requires
        parts.len() > 0,
    ensures
        parts_up(parts) == parts_up(parts.drop_first()) + part_event(parts[0], true),
    decreases parts.len(),
{
    if parts.len() == 1 {
        assert(parts.drop_last() =~= Seq::<Seq<char>>::empty());
        assert(parts.drop_first() =~= Seq::<Seq<char>>::empty());
        assert(parts_up(parts) =~= parts_up(parts.drop_first()) + part_event(parts[0], true));
    } else {
        lemma_parts_up_front(parts.drop_last());
        assert(parts.drop_last().drop_first() =~= parts.drop_first().drop_last());
        assert(parts.drop_first().last() == parts.last());
        assert(parts.drop_last()[0] == parts[0]);
        assert(parts_up(parts) =~= parts_up(parts.drop_first()) + part_event(parts[0], true));
    }
}

proof fn lemma_parts_mirror(parts: Seq<Seq<char>>)
    ensures
        parts_up(parts) == lifted(parts_down(parts).reverse()),
    decreases parts.len(),
{
    if parts.len() == 0 {
        assert(lifted(Seq::<KeyEvent>::empty().reverse()) =~= Seq::<KeyEvent>::empty());
    } else {
        lemma_parts_mirror(parts.drop_first());
        lemma_parts_up_front(parts);
        lemma_part_mirror(parts[0]);
        let d0 = part_event(parts[0], false);
        let rest = parts_down(parts.drop_first());
        lemma_reverse_concat(d0, rest);
        lemma_lifted_concat(rest.reverse(), d0.reverse());
    }
}

proof fn lemma_release_front(slots: Seq<Seq<char>>)
    requires
        slots.len() > 0,
    ensures
        release_events(slots) == release_events(slots.drop_first()) + slot_up(slots[0]),
    decreases slots.len(),
{
    if slots.len() == 1 {
        assert(slots.drop_last() =~= Seq::<Seq<char>>::empty());
        assert(slots.drop_first() =~= Seq::<Seq<char>>::empty());
        assert(release_events(slots) =~= release_events(slots.drop_first()) + slot_up(slots[0]));
    } else {
        lemma_release_front(slots.drop_last());
        assert(slots.drop_last().drop_first() =~= slots.drop_first().drop_last());
        assert(slots.drop_first().last() == slots.last());
        assert(slots.drop_last()[0] == slots[0]);
        assert(release_events(slots) =~= release_events(slots.drop_first()) + slot_up(slots[0]));
    }
}

/// Releasing an input undoes pressing it: the keys that go up are exactly the
/// keys that went down, in the reverse order.
pub proof fn lemma_release_mirrors_press(slots: Seq<Seq<char>>)
    ensures
        release_events(slots) == lifted(press_events(slots).reverse()),
    decreases slots.len(),
{
    if slots.len() == 0 {
        assert(lifted(Seq::<KeyEvent>::empty().reverse()) =~= Seq::<KeyEvent>::empty());
    } else {
        lemma_release_mirrors_press(slots.drop_first());
        lemma_release_front(slots);
        let s0 = slots[0];
        if s0.len() > 0 {
            lemma_parts_mirror(split_on(s0, '+'));
        } else {
            assert(lifted(Seq::<KeyEvent>::empty().reverse()) =~= Seq::<KeyEvent>::empty());
        }
        let d0 = slot_down(s0);
        let rest = press_events(slots.drop_first());
        lemma_reverse_concat(d0, rest);
        lemma_lifted_concat(rest.reverse(), d0.reverse());
    }
}

fn push_part_event(out: &mut Vec<KeyEvent>, part: &Vec<char>, up: bool)
    ensures
        final(out)@ == old(out)@ + part_event(part@, up),
{
    let name = string_of(part.as_slice());
    match parse_key_string(name.as_str()) {
        Some(code) => {
            out.push(KeyEvent { code, up });
            assert(final(out)@ =~= old(out)@ + seq![KeyEvent { code, up }]);
        },
        None => {
            assert(old(out)@ + Seq::<KeyEvent>::empty() =~= old(out)@);
        },
    }
}

/// The key-down events of the key combination `slot`.
pub fn slot_down_events(slot: &str) -> (r: Vec<KeyEvent>)
    ensures
        r@ == slot_down(slot@),
{
    let v = chars_of(slot);
    let mut out: Vec<KeyEvent> = Vec::new();
    if v.len() == 0 {
        return out;
    }
    let pieces = split_chars(v.as_slice(), '+');
    let ghost ps = split_on(slot@, '+');
    let mut k: usize = 0;
    assert(ps.skip(0) =~= ps);
    while k < pieces.len()
        invariant
            k <= pieces.len(),
            views_of(pieces@, ps),
            parts_down(ps) == out@ + parts_down(ps.skip(k as int)),
        decreases pieces.len() - k,
    {
        assert(ps.skip(k as int).drop_first() =~= ps.skip(k + 1));
        assert(ps.skip(k as int)[0] == ps[k as int]);
        let ghost before = out@;
        push_part_event(&mut out, &pieces[k], false);
        assert(before + (part_event(ps[k as int], false) + parts_down(ps.skip(k + 1))) =~= out@
            + parts_down(ps.skip(k + 1)));
        k = k + 1;
    }
    assert(out@ + parts_down(ps.skip(k as int)) =~= out@) by {
        assert(ps.skip(k as int) =~= Seq::<Seq<char>>::empty());
    }
    out
}

/// The key-up events of the key combination `slot`.
pub fn slot_up_events(slot: &str) -> (r: Vec<KeyEvent>)
    ensures
        r@ == slot_up(slot@),
{
    let v = chars_of(slot);
    let mut out: Vec<KeyEvent> = Vec::new();
    if v.len() == 0 {
        return out;
    }
    let pieces = split_chars(v.as_slice(), '+');
    let ghost ps = split_on(slot@, '+');
    let mut k: usize = pieces.len();
    assert(ps.take(ps.len() as int) =~= ps);
    assert(out@ + parts_up(ps) =~= parts_up(ps));
    while k > 0
        invariant
            k <= pieces.len(),
            views_of(pieces@, ps),
            parts_up(ps) == out@ + parts_up(ps.take(k as int)),
        decreases k,
    {
        assert(ps.take(k as int).drop_last() =~= ps.take(k - 1));
        assert(ps.take(k as int).last() == ps[k - 1]);
        let ghost before = out@;
        push_part_event(&mut out, &pieces[k - 1], true);
        assert(before + (part_event(ps[k - 1], true) + parts_up(ps.take(k - 1))) =~= out@
            + parts_up(ps.take(k - 1)));
        k = k - 1;
    }
    assert(out@ + parts_up(ps.take(0)) =~= out@) by {
        assert(ps.take(0) =~= Seq::<Seq<char>>::empty());
    }
    out
}

fn append_events(out: &mut Vec<KeyEvent>, evs: Vec<KeyEvent>)
    ensures
        final(out)@ == old(out)@ + evs@,
{
    let mut k: usize = 0;
    while k < evs.len()
        invariant
            k <= evs.len(),
            out@ == old(out)@ + evs@.take(k as int),
        decreases evs.len() - k,
    {
        out.push(evs[k]);
        assert(evs@.take(k + 1) =~= evs@.take(k as int).push(evs@[k as int]));
        k = k + 1;
    }
    assert(evs@.take(evs.len() as int) =~= evs@);
}

/// The events sent when an input mapped to `slots` is pressed.
pub fn key_down_events(slots: &[String]) -> (r: Vec<KeyEvent>)
    ensures
        r@ == press_events(slots_view(slots@)),
{
    let ghost all = slots_view(slots@);
    let mut out: Vec<KeyEvent> = Vec::new();
    let mut i: usize = 0;
    assert(all.skip(0) =~= all);
    assert(out@ + press_events(all) =~= press_events(all));
    while i < slots.len()
        invariant
            i <= slots.len(),
            all == slots_view(slots@),
            press_events(all) == out@ + press_events(all.skip(i as int)),
        decreases slots.len() - i,
    {
        assert(all.skip(i as int).drop_first() =~= all.skip(i + 1));
        assert(all.skip(i as int)[0] == slots@[i as int]@);
        let evs = slot_down_events(slots[i].as_str());
        let ghost before = out@;
        append_events(&mut out, evs);
        assert(before + (slot_down(all[i as int]) + press_events(all.skip(i + 1))) =~= out@
            + press_events(all.skip(i + 1)));
        i = i + 1;
    }
    assert(all.skip(i as int) =~= Seq::<Seq<char>>::empty());
    assert(out@ + Seq::<KeyEvent>::empty() =~= out@);
    out
}

/// The events sent when an input mapped to `slots` is released.
pub fn key_up_events(slots: &[String]) -> (r: Vec<KeyEvent>)
    ensures
        r@ == release_events(slots_view(slots@)),
{
    let ghost all = slots_view(slots@);
    let mut out: Vec<KeyEvent> = Vec::new();
    let mut i: usize = slots.len();
    assert(all.take(all.len() as int) =~= all);
    assert(out@ + release_events(all) =~= release_events(all));
    while i > 0
        invariant
            i <= slots.len(),
            all == slots_view(slots@),
            release_events(all) == out@ + release_events(all.take(i as int)),
        decreases i,
    {
        assert(all.take(i as int).drop_last() =~= all.take(i - 1));
        assert(all.take(i as int).last() == slots@[i - 1]@);
        let evs = slot_up_events(slots[i - 1].as_str());
        let ghost before = out@;
        append_events(&mut out, evs);
        assert(before + (slot_up(all[i - 1]) + release_events(all.take(i - 1))) =~= out@
            + release_events(all.take(i - 1)));
        i = i - 1;
    }
    assert(all.take(0) =~= Seq::<Seq<char>>::empty());
    assert(out@ + Seq::<KeyEvent>::empty() =~= out@);
    out
}

/// How many controller inputs a mapping table lists.
pub const INPUT_COUNT: usize = 25;

/// One reading of the controller: the button bits, the four stick axes and the two triggers.
#[derive(Clone, Copy, Debug, PartialEq, Eq, Structural)]
pub struct PadReading {
    pub buttons: u16,
    pub left_x: i16,
    pub left_y: i16,
    pub right_x: i16,
    pub right_y: i16,
    pub left_trigger: u8,
    pub right_trigger: u8,
}

/// The name of controller input `i`, in the order the mapping table lists the inputs.
pub open spec fn input_name(i: int) -> Seq<char> {
    if i == 0 {
        "A"@
    } else if i == 1 {
        "B"@
    } else if i == 2 {
        "X"@
    } else if i == 3 {
        "Y"@
    } else if i == 4 {
        "DPAD_UP"@
    } else if i == 5 {
        "DPAD_DOWN"@
    } else if i == 6 {
        "DPAD_LEFT"@
    } else if i == 7 {
        "DPAD_RIGHT"@
    } else if i == 8 {
        "LB"@
    } else if i == 9 {
        "RB"@
    } else if i == 10 {
        "LT"@
    } else if i == 11 {
        "RT"@
    } else if i == 12 {
        "LS_CLICK"@
    } else if i == 13 {
        "RS_CLICK"@
    } else if i == 14 {
        "START"@
    } else if i == 15 {
        "BACK"@
    } else if i == 16 {
        "GUIDE"@
    } else if i == 17 {
        "LS_UP"@
    } else if i == 18 {
        "LS_DOWN"@
    } else if i == 19 {
        "LS_LEFT"@
    } else if i == 20 {
        "LS_RIGHT"@
    } else if i == 21 {
        "RS_UP"@
    } else if i == 22 {
        "RS_DOWN"@
    } else if i == 23 {
        "RS_LEFT"@
    } else if i == 24 {
        "RS_RIGHT"@
    } else {
        Seq::empty()
    }
}

/// The name of controller input `i`.
pub fn input_name_of(i: usize) -> (r: &'static str)
    requires
        i < INPUT_COUNT,
    ensures
        r@ == input_name(i as int),
{
    if i == 0 {
        "A"
    } else if i == 1 {
        "B"
    } else if i == 2 {
        "X"
    } else if i == 3 {
        "Y"
    } else if i == 4 {
        "DPAD_UP"
    } else if i == 5 {
        "DPAD_DOWN"
    } else if i == 6 {
        "DPAD_LEFT"
    } else if i == 7 {
        "DPAD_RIGHT"
    } else if i == 8 {
        "LB"
    } else if i == 9 {
        "RB"
    } else if i == 10 {
        "LT"
    } else if i == 11 {
        "RT"
    } else if i == 12 {
        "LS_CLICK"
    } else if i == 13 {
        "RS_CLICK"
    } else if i == 14 {
        "START"
    } else if i == 15 {
        "BACK"
    } else if i == 16 {
        "GUIDE"
    } else if i == 17 {
        "LS_UP"
    } else if i == 18 {
        "LS_DOWN"
    } else if i == 19 {
        "LS_LEFT"
    } else if i == 20 {
        "LS_RIGHT"
    } else if i == 21 {
        "RS_UP"
    } else if i == 22 {
        "RS_DOWN"
    } else if i == 23 {
        "RS_LEFT"
    } else {
        "RS_RIGHT"
    }
}

/// Whether controller input `i` counts as held in the reading `pad`: a button
/// by its bit, a trigger past half travel, a stick direction past 16000.
pub open spec fn input_held(pad: PadReading, i: int) -> bool {
    if i == 0 {
        (pad.buttons & 0x1000u16) != 0
    } else if i == 1 {
        (pad.buttons & 0x2000u16) != 0
    } else if i == 2 {
        (pad.buttons & 0x4000u16) != 0
    } else if i == 3 {
        (pad.buttons & 0x8000u16) != 0
    } else if i == 4 {
        (pad.buttons & 0x0001u16) != 0
    } else if i == 5 {
        (pad.buttons & 0x0002u16) != 0
    } else if i == 6 {
        (pad.buttons & 0x0004u16) != 0
    } else if i == 7 {
        (pad.buttons & 0x0008u16) != 0
    } else if i == 8 {
        (pad.buttons & 0x0100u16) != 0
    } else if i == 9 {
        (pad.buttons & 0x0200u16) != 0
    } else if i == 10 {
        pad.left_trigger > 128
    } else if i == 11 {
        pad.right_trigger > 128
    } else if i == 12 {
        (pad.buttons & 0x0040u16) != 0
    } else if i == 13 {
        (pad.buttons & 0x0080u16) != 0
    } else if i == 14 {
        (pad.buttons & 0x0010u16) != 0
    } else if i == 15 {
        (pad.buttons & 0x0020u16) != 0
    } else if i == 16 {
        (pad.buttons & 0x0400u16) != 0
    } else if i == 17 {
        pad.left_y > 16000
    } else if i == 18 {
        pad.left_y < -16000
    } else if i == 19 {
        pad.left_x < -16000
    } else if i == 20 {
        pad.left_x > 16000
    } else if i == 21 {
        pad.right_y > 16000
    } else if i == 22 {
        pad.right_y < -16000
    } else if i == 23 {
        pad.right_x < -16000
    } else if i == 24 {
        pad.right_x > 16000
    } else {
        false
    }
}

fn input_held_of(pad: &PadReading, i: usize) -> (b: bool)
    requires
        i < INPUT_COUNT,
    ensures
        b == input_held(*pad, i as int),
{
    if i == 0 {
        (pad.buttons & 0x1000) != 0
    } else if i == 1 {
        (pad.buttons & 0x2000) != 0
    } else if i == 2 {
        (pad.buttons & 0x4000) != 0
    } else if i == 3 {
        (pad.buttons & 0x8000) != 0
    } else if i == 4 {
        (pad.buttons & 0x0001) != 0
    } else if i == 5 {
        (pad.buttons & 0x0002) != 0
    } else if i == 6 {
        (pad.buttons & 0x0004) != 0
    } else if i == 7 {
        (pad.buttons & 0x0008) != 0
    } else if i == 8 {
        (pad.buttons & 0x0100) != 0
    } else if i == 9 {
        (pad.buttons & 0x0200) != 0
    } else if i == 10 {
        pad.left_trigger > 128
    } else if i == 11 {
        pad.right_trigger > 128
    } else if i == 12 {
        (pad.buttons & 0x0040) != 0
    } else if i == 13 {
        (pad.buttons & 0x0080) != 0
    } else if i == 14 {
        (pad.buttons & 0x0010) != 0
    } else if i == 15 {
        (pad.buttons & 0x0020) != 0
    } else if i == 16 {
        (pad.buttons & 0x0400) != 0
    } else if i == 17 {
        pad.left_y > 16000
    } else if i == 18 {
        pad.left_y < -16000
    } else if i == 19 {
        pad.left_x < -16000
    } else if i == 20 {
        pad.left_x > 16000
    } else if i == 21 {
        pad.right_y > 16000
    } else if i == 22 {
        pad.right_y < -16000
    } else if i == 23 {
        pad.right_x < -16000
    } else {
        pad.right_x > 16000
    }
}

/// Which inputs are held in the reading `pad`, by input position.
pub fn held_inputs(pad: &PadReading) -> (r: Vec<bool>)
    ensures
        r@.len() == INPUT_COUNT,
        forall|i: int| 0 <= i < INPUT_COUNT ==> #[trigger] r@[i] == input_held(*pad, i),
{
    let mut r: Vec<bool> = Vec::new();
    let mut i: usize = 0;
    while i < INPUT_COUNT
        invariant
            i <= INPUT_COUNT,
            r@.len() == i,
            forall|j: int| 0 <= j < i ==> #[trigger] r@[j] == input_held(*pad, j),
        decreases INPUT_COUNT - i,
    {
        r.push(input_held_of(pad, i));
        i = i + 1;
    }
    r
}

/// Whether input `i` was held in the previous frame (`prev` is empty before the first one).
pub open spec fn was_held(prev: Seq<bool>, i: int) -> bool {
    0 <= i < prev.len() && prev[i]
}

/// The events that input `i` causes in a frame: its press events when it went
/// down, its release events when it came up, nothing otherwise or when the
/// mapping table has no entry for it.
pub open spec fn input_events(
    prev: Seq<bool>,
    cur: Seq<bool>,
    m: Seq<(Seq<char>, Seq<Seq<char>>)>,
    i: int,
) -> Seq<KeyEvent> {
    match lookup(m, input_name(i)) {
        Some(slots) => if cur[i] && !was_held(prev, i) {
            press_events(slots)
        } else if !cur[i] && was_held(prev, i) {
            release_events(slots)
        } else {
            Seq::empty()
        },
        None => Seq::empty(),
    }
}

/// The events of a frame for the first `n` inputs, input by input.
pub open spec fn frame_events(
    prev: Seq<bool>,
    cur: Seq<bool>,
    m: Seq<(Seq<char>, Seq<Seq<char>>)>,
    n: nat,
) -> Seq<KeyEvent>
    decreases n,
{
    if n == 0 {
        Seq::empty()
    } else {
        frame_events(prev, cur, m, (n - 1) as nat) + input_events(prev, cur, m, n - 1)
    }
}

/// How many of the first `n` inputs went down in this frame.
pub open spec fn newly_held_count(prev: Seq<bool>, cur: Seq<bool>, n: nat) -> nat
    decreases n,
{
    if n == 0 {
        0
    } else {
        newly_held_count(prev, cur, (n - 1) as nat) + if cur[n - 1] && !was_held(prev, n - 1) {
            1nat
        } else {
            0nat
        }
    }
}

/// Whether any of the first `n` inputs went down or came up in this frame.
pub open spec fn any_change(prev: Seq<bool>, cur: Seq<bool>, n: nat) -> bool
    decreases n,
{
    n > 0 && (any_change(prev, cur, (n - 1) as nat) || cur[n - 1] != was_held(prev, n - 1))
}

/// How many events of `evs` put a key down.
pub open spec fn down_count(evs: Seq<KeyEvent>) -> nat
    decreases evs.len(),
{
    if evs.len() == 0 {
        0
    } else {
        down_count(evs.drop_last()) + if evs.last().up {
            0nat
        } else {
            1nat
        }
    }
}

/// What one frame of the polling loop produces.
pub struct FrameOutcome {
    /// Which inputs are held now; the previous state of the next frame.
    pub held: Vec<bool>,
    /// The keyboard events to synthesize, in order.
    pub events: Vec<KeyEvent>,
    /// How many of the events put a key down (added to the key-press counter).
    pub key_presses: u64,
    /// How many click sounds to play: one per input that went down, when sound is on.
    pub clicks: u64,
    /// Whether any input went down or came up.
    pub changed: bool,
}

/// One frame of the polling loop while a controller is connected: compares the
/// inputs held in `pad` with those held before (`prev`) and turns each change
/// into the key events of the input's mapping in `mappings`.
pub fn process_frame(
    prev: &[bool],
    pad: &PadReading,
    mappings: &[(String, Vec<String>)],
    sound: bool,
) -> (out: FrameOutcome)
    ensures
        out.held@.len() == INPUT_COUNT,
        forall|i: int| 0 <= i < INPUT_COUNT ==> #[trigger] out.held@[i] == input_held(*pad, i),
        out.events@ == frame_events(prev@, out.held@, mappings_view(mappings@), INPUT_COUNT as nat),
        out.key_presses == down_count(out.events@),
        out.clicks == (if sound { newly_held_count(prev@, out.held@, INPUT_COUNT as nat) } else { 0 }),
        out.changed == any_change(prev@, out.held@, INPUT_COUNT as nat),
{
    let cur = held_inputs(pad);
    let ghost m = mappings_view(mappings@);
    let mut events: Vec<KeyEvent> = Vec::new();
    let mut newly: u64 = 0;
    let mut changed = false;
    let mut i: usize = 0;
    while i < INPUT_COUNT
        invariant
            i <= INPUT_COUNT,
            cur@.len() == INPUT_COUNT,
            m == mappings_view(mappings@),
            events@ == frame_events(prev@, cur@, m, i as nat),
            newly == newly_held_count(prev@, cur@, i as nat),
            newly <= i,
            changed == any_change(prev@, cur@, i as nat),
        decreases INPUT_COUNT - i,
    {
        let was = i < prev.len() && prev[i];
        let now = cur[i];
        if now != was {
            changed = true;
        }
        if now && !was {
            newly = newly + 1;
        }
        let found = find_mapping(mappings, input_name_of(i));
        let ghost before = events@;
        match found {
            Some(idx) => {
                if now && !was {
                    let evs = key_down_events(mappings[idx].1.as_slice());
                    append_events(&mut events, evs);
                } else if !now && was {
                    let evs = key_up_events(mappings[idx].1.as_slice());
                    append_events(&mut events, evs);
                } else {
                    assert(before + Seq::<KeyEvent>::empty() =~= before);
                }
            },
            None => {
                assert(before + Seq::<KeyEvent>::empty() =~= before);
            },
        }
        i = i + 1;
    }
    let mut presses: u64 = 0;
    let mut k: usize = 0;
    while k < events.len()
        invariant
            k <= events@.len(),
            presses == down_count(events@.take(k as int)),
            presses <= k,
        decreases events.len() - k,
    {
        assert(events@.take(k + 1).drop_last() =~= events@.take(k as int));
        if !events[k].up {
            presses = presses + 1;
        }
        k = k + 1;
    }
    assert(events@.take(events@.len() as int) =~= events@);
    FrameOutcome {
        held: cur,
        events,
        key_presses: presses,
        clicks: if sound { newly } else { 0 },
        changed,
    }
}

/// A frame in which every input is held exactly as before sends no events,
/// counts no presses, plays no click and reports no change.
pub proof fn lemma_steady_frame(prev: Seq<bool>, cur: Seq<bool>, m: Seq<(Seq<char>, Seq<Seq<char>>)>, n: nat)
    requires
        n <= prev.len(),
        n <= cur.len(),
        forall|i: int| 0 <= i < n ==> #[trigger] cur[i] == prev[i],
    ensures
        frame_events(prev, cur, m, n) == Seq::<KeyEvent>::empty(),
        newly_held_count(prev, cur, n) == 0,
        !any_change(prev, cur, n),
    decreases n,
{
    if n > 0 {
        lemma_steady_frame(prev, cur, m, (n - 1) as nat);
        assert(cur[n - 1] == prev[n - 1]);
        assert(frame_events(prev, cur, m, n) =~= Seq::<KeyEvent>::empty());
    }
}


proof fn lemma_lifted_counts_nothing(evs: Seq<KeyEvent>)
    ensures
        down_count(lifted(evs)) == 0,
    decreases evs.len(),
{
    if evs.len() > 0 {
        lemma_lifted_counts_nothing(evs.drop_last());
        assert(lifted(evs).drop_last() =~= lifted(evs.drop_last()));
    }
}

/// Releasing an input puts no key down, so it adds nothing to the key-press count.
pub proof fn lemma_release_counts_no_press(slots: Seq<Seq<char>>)
    ensures
        down_count(release_events(slots)) == 0,
{
    lemma_release_mirrors_press(slots);
    lemma_lifted_counts_nothing(press_events(slots).reverse());
}

/// What each controller input is and when it counts as held: a button while
/// its XInput bit is set, a trigger past half travel (more than 128), a stick
/// direction while its axis is past 16000 that way. Opposite stick directions
/// are never held together.
pub proof fn lemma_controller_inputs(pad: PadReading)
    ensures
        input_name(0) == "A"@ && (input_held(pad, 0) <==> (pad.buttons & 0x1000u16) != 0),
        input_name(1) == "B"@ && (input_held(pad, 1) <==> (pad.buttons & 0x2000u16) != 0),
        input_name(2) == "X"@ && (input_held(pad, 2) <==> (pad.buttons & 0x4000u16) != 0),
        input_name(3) == "Y"@ && (input_held(pad, 3) <==> (pad.buttons & 0x8000u16) != 0),
        input_name(4) == "DPAD_UP"@ && (input_held(pad, 4) <==> (pad.buttons & 0x0001u16) != 0),
        input_name(5) == "DPAD_DOWN"@ && (input_held(pad, 5) <==> (pad.buttons & 0x0002u16) != 0),
        input_name(6) == "DPAD_LEFT"@ && (input_held(pad, 6) <==> (pad.buttons & 0x0004u16) != 0),
        input_name(7) == "DPAD_RIGHT"@ && (input_held(pad, 7) <==> (pad.buttons & 0x0008u16) != 0),
        input_name(8) == "LB"@ && (input_held(pad, 8) <==> (pad.buttons & 0x0100u16) != 0),
        input_name(9) == "RB"@ && (input_held(pad, 9) <==> (pad.buttons & 0x0200u16) != 0),
        input_name(10) == "LT"@ && (input_held(pad, 10) <==> pad.left_trigger > 128),
        input_name(11) == "RT"@ && (input_held(pad, 11) <==> pad.right_trigger > 128),
        input_name(12) == "LS_CLICK"@ && (input_held(pad, 12) <==> (pad.buttons & 0x0040u16) != 0),
        input_name(13) == "RS_CLICK"@ && (input_held(pad, 13) <==> (pad.buttons & 0x0080u16) != 0),
        input_name(14) == "START"@ && (input_held(pad, 14) <==> (pad.buttons & 0x0010u16) != 0),
        input_name(15) == "BACK"@ && (input_held(pad, 15) <==> (pad.buttons & 0x0020u16) != 0),
        input_name(16) == "GUIDE"@ && (input_held(pad, 16) <==> (pad.buttons & 0x0400u16) != 0),
        input_name(17) == "LS_UP"@ && (input_held(pad, 17) <==> pad.left_y > 16000),
        input_name(18) == "LS_DOWN"@ && (input_held(pad, 18) <==> pad.left_y < -16000),
        input_name(19) == "LS_LEFT"@ && (input_held(pad, 19) <==> pad.left_x < -16000),
        input_name(20) == "LS_RIGHT"@ && (input_held(pad, 20) <==> pad.left_x > 16000),
        input_name(21) == "RS_UP"@ && (input_held(pad, 21) <==> pad.right_y > 16000),
        input_name(22) == "RS_DOWN"@ && (input_held(pad, 22) <==> pad.right_y < -16000),
        input_name(23) == "RS_LEFT"@ && (input_held(pad, 23) <==> pad.right_x < -16000),
        input_name(24) == "RS_RIGHT"@ && (input_held(pad, 24) <==> pad.right_x > 16000),
        !(input_held(pad, 17) && input_held(pad, 18)),
        !(input_held(pad, 19) && input_held(pad, 20)),
        !(input_held(pad, 21) && input_held(pad, 22)),
        !(input_held(pad, 23) && input_held(pad, 24)),
{
}
} // verus!
