//! The VT byte-stream parser.
//!
//! A classical escape-sequence recognizer over the states ground, escape,
//! control sequence (CSI), operating-system command (OSC), device control
//! string (DCS) and a UTF-8 collector. Each byte advances the state and
//! yields at most one event — print, execute, CSI dispatch or ESC dispatch
//! — which `advance` applies to the emulator. The transition relation is
//! pinned down exactly by `spec_parse_step`, and the emulator's change by
//! `spec_apply_event`.

use vstd::prelude::*;

use crate::terminal::BEL;
use crate::terminal::ESC;
use crate::terminal::Terminal;
use crate::terminal::TermState;
use crate::terminal::eq_frame;
use crate::terminal::spec_csi;
use crate::terminal::spec_esc;
use crate::terminal::spec_execute;
use crate::terminal::spec_print;

verus! {

broadcast use vstd::utf8::char_u32_cast, vstd::utf8::char_is_scalar;

/// Relies on `char::from_u32` of core: the conversion succeeds exactly on
/// valid Unicode scalar values (not a surrogate, at most U+10FFFF) and
/// returns the character with that value.
pub assume_specification[ char::from_u32 ](i: u32) -> (r: Option<char>)
    ensures
        r is Some <==> (i < 0xD800 || (0xE000 <= i && i <= 0x10FFFF)),
        r matches Some(c) ==> c as u32 == i,
;

/// Whether `v` is a valid Unicode scalar value.
pub open spec fn valid_scalar(v: int) -> bool {
    (0 <= v < 0xD800) || (0xE000 <= v <= 0x10FFFF)
}

/// The character whose scalar value is `v`.
pub open spec fn char_of(v: u32) -> char {
    v as char
}

/// The recognizer's control states.
#[derive(Clone, Copy, Debug, PartialEq, Eq, Structural)]
pub enum ParseState {
    /// Plain text and C0 controls.
    Ground,
    /// After ESC.
    Escape,
    /// Inside a control sequence, collecting parameters.
    Csi,
    /// Inside an operating-system command, waiting for its terminator.
    Osc,
    /// Inside a device control string, waiting for its terminator.
    Dcs,
    /// Collecting the continuation bytes of one UTF-8 scalar.
    Utf8,
}

/// The abstract parser state the contracts speak of.
#[verifier::ext_equal]
pub ghost struct PView {
    pub state: ParseState,
    pub params: Seq<u16>,
    pub current: u16,
    pub any: bool,
    pub skip: bool,
    pub inters: Seq<u8>,
    pub cp: u32,
    pub rem: u8,
}

/// One event handed to the emulator.
#[verifier::ext_equal]
pub ghost enum EventView {
    NoEvent,
    Print(char),
    Execute(u8),
    CsiDispatch(Seq<u16>, Seq<u8>, char),
    EscDispatch(Seq<u8>, u8),
}

/// Entering the escape state: the collected intermediates are dropped.
pub open spec fn to_escape(p: PView) -> PView {
    PView { state: ParseState::Escape, inters: Seq::empty(), ..p }
}

/// Back to ground with every collection cleared.
pub open spec fn to_ground(p: PView) -> PView {
    PView {
        state: ParseState::Ground,
        params: Seq::empty(),
        current: 0,
        any: false,
        skip: false,
        inters: Seq::empty(),
        ..p
    }
}

/// The ground state: C0 bytes execute, ESC opens an escape sequence,
/// printable ASCII prints, UTF-8 lead bytes open the collector, DEL and
/// stray bytes are ignored.
pub open spec fn spec_ground_step(p: PView, b: u8) -> (PView, EventView) {
    if b == ESC {
        (to_escape(p), EventView::NoEvent)
    } else if b < 0x20 {
        (p, EventView::Execute(b))
    } else if b < 0x7F {
        (p, EventView::Print(b as char))
    } else if 0xC2 <= b && b <= 0xDF {
        (
            PView { state: ParseState::Utf8, cp: (b - 0xC0) as u32, rem: 1, ..p },
            EventView::NoEvent,
        )
    } else if 0xE0 <= b && b <= 0xEF {
        (
            PView { state: ParseState::Utf8, cp: (b - 0xE0) as u32, rem: 2, ..p },
            EventView::NoEvent,
        )
    } else if 0xF0 <= b && b <= 0xF4 {
        (
            PView { state: ParseState::Utf8, cp: (b - 0xF0) as u32, rem: 3, ..p },
            EventView::NoEvent,
        )
    } else {
        (p, EventView::NoEvent)
    }
}

/// The escape state: `[`, `]` and `P` (with no intermediates) open CSI,
/// OSC and DCS; intermediates collect; a final byte dispatches; C0 bytes
/// still execute.
pub open spec fn spec_escape_step(p: PView, b: u8) -> (PView, EventView) {
    if b == 0x5B && p.inters.len() == 0 {
        (
            PView {
                state: ParseState::Csi,
                params: Seq::empty(),
                current: 0,
                any: false,
                skip: false,
                ..p
            },
            EventView::NoEvent,
        )
    } else if b == 0x5D && p.inters.len() == 0 {
        (PView { state: ParseState::Osc, ..p }, EventView::NoEvent)
    } else if b == 0x50 && p.inters.len() == 0 {
        (PView { state: ParseState::Dcs, ..p }, EventView::NoEvent)
    } else if b == ESC {
        (to_escape(p), EventView::NoEvent)
    } else if 0x20 <= b && b <= 0x2F {
        if p.inters.len() < 2 {
            (PView { inters: p.inters.push(b), ..p }, EventView::NoEvent)
        } else {
            (p, EventView::NoEvent)
        }
    } else if 0x30 <= b && b <= 0x7E {
        (to_ground(p), EventView::EscDispatch(p.inters, b))
    } else if b < 0x20 {
        (p, EventView::Execute(b))
    } else if b == 0x7F {
        (p, EventView::NoEvent)
    } else {
        (PView { state: ParseState::Ground, ..p }, EventView::NoEvent)
    }
}

/// One digit appended to the parameter under construction, saturating.
pub open spec fn sat_digit(current: u16, d: int) -> u16 {
    if current * 10 + d > 65535 {
        65535u16
    } else {
        (current * 10 + d) as u16
    }
}

/// The pending parameter list at dispatch: the parameter under
/// construction joins it if any parameter bytes were seen at all.
pub open spec fn flushed_params(p: PView) -> Seq<u16> {
    if p.any && p.params.len() < 32 {
        p.params.push(p.current)
    } else {
        p.params
    }
}

/// The CSI state: digits build a parameter (saturating, capped at 32
/// parameters), `;` separates, `:` mutes the rest of a group,
/// intermediates and private markers collect, a final byte dispatches the
/// sequence, C0 bytes still execute.
pub open spec fn spec_csi_step(p: PView, b: u8) -> (PView, EventView) {
    if 0x30 <= b && b <= 0x39 {
        if p.skip {
            (PView { any: true, ..p }, EventView::NoEvent)
        } else {
            (
                PView { current: sat_digit(p.current, b - 0x30), any: true, ..p },
                EventView::NoEvent,
            )
        }
    } else if b == 0x3B {
        let ps = if p.params.len() < 32 {
            p.params.push(p.current)
        } else {
            p.params
        };
        (PView { params: ps, current: 0, any: true, skip: false, ..p }, EventView::NoEvent)
    } else if b == 0x3A {
        (PView { skip: true, any: true, ..p }, EventView::NoEvent)
    } else if (0x20 <= b && b <= 0x2F) || (0x3C <= b && b <= 0x3F) {
        if p.inters.len() < 2 {
            (PView { inters: p.inters.push(b), ..p }, EventView::NoEvent)
        } else {
            (p, EventView::NoEvent)
        }
    } else if 0x40 <= b && b <= 0x7E {
        (to_ground(p), EventView::CsiDispatch(flushed_params(p), p.inters, b as char))
    } else if b == ESC {
        (to_escape(p), EventView::NoEvent)
    } else if b < 0x20 {
        (p, EventView::Execute(b))
    } else if b == 0x7F {
        (p, EventView::NoEvent)
    } else {
        (to_ground(p), EventView::NoEvent)
    }
}

/// The OSC state: swallowed up to BEL, or up to ESC (a following `\` then
/// ends the string).
pub open spec fn spec_osc_step(p: PView, b: u8) -> (PView, EventView) {
    if b == BEL {
        (PView { state: ParseState::Ground, ..p }, EventView::NoEvent)
    } else if b == ESC {
        (to_escape(p), EventView::NoEvent)
    } else {
        (p, EventView::NoEvent)
    }
}

/// The DCS state: swallowed up to ESC.
pub open spec fn spec_dcs_step(p: PView, b: u8) -> (PView, EventView) {
    if b == ESC {
        (to_escape(p), EventView::NoEvent)
    } else {
        (p, EventView::NoEvent)
    }
}

/// The UTF-8 collector: continuation bytes accumulate; on the last one
/// the scalar prints if valid; any other byte abandons the sequence and
/// is taken as fresh ground input.
pub open spec fn spec_utf8_step(p: PView, b: u8) -> (PView, EventView) {
    if 0x80 <= b && b <= 0xBF {
        let v = p.cp * 64 + (b - 0x80);
        if p.rem == 1 {
            let q = PView { state: ParseState::Ground, cp: v as u32, rem: 0, ..p };
            if valid_scalar(v as int) {
                (q, EventView::Print(char_of(v as u32)))
            } else {
                (q, EventView::NoEvent)
            }
        } else {
            (
                PView { cp: v as u32, rem: (p.rem - 1) as u8, ..p },
                EventView::NoEvent,
            )
        }
    } else {
        spec_ground_step(PView { state: ParseState::Ground, ..p }, b)
    }
}

/// One byte's effect on the parser, and the event it hands the emulator.
pub open spec fn spec_parse_step(p: PView, b: u8) -> (PView, EventView) {
    match p.state {
        ParseState::Ground => spec_ground_step(p, b),
        ParseState::Escape => spec_escape_step(p, b),
        ParseState::Csi => spec_csi_step(p, b),
        ParseState::Osc => spec_osc_step(p, b),
        ParseState::Dcs => spec_dcs_step(p, b),
        ParseState::Utf8 => spec_utf8_step(p, b),
    }
}

/// The emulator state after one event.
pub open spec fn spec_apply_event(t: TermState, e: EventView) -> TermState {
    match e {
        EventView::NoEvent => t,
        EventView::Print(c) => spec_print(t, c),
        EventView::Execute(b) => spec_execute(t, b),
        EventView::CsiDispatch(ps, inters, a) => spec_csi(t, ps, inters, a),
        EventView::EscDispatch(inters, b) => spec_esc(t, inters, b),
    }
}

/// The escape-sequence recognizer.
pub struct Parser {
    pub state: ParseState,
    pub params: Vec<u16>,
    pub current: u16,
    pub any: bool,
    pub skip: bool,
    pub intermediates: Vec<u8>,
    pub cp: u32,
    pub rem: u8,
}

impl View for Parser {
    type V = PView;

    open spec fn view(&self) -> PView {
        PView {
            state: self.state,
            params: self.params@,
            current: self.current,
            any: self.any,
            skip: self.skip,
            inters: self.intermediates@,
            cp: self.cp,
            rem: self.rem,
        }
    }
}

impl Parser {
    /// The parser's own invariant: bounded collections, and a UTF-8
    /// collector that still expects 1 to 3 bytes of a scalar small enough
    /// to extend.
    pub open spec fn wf(&self) -> bool {
        &&& self@.params.len() <= 32
        &&& self@.inters.len() <= 2
        &&& (self@.state == ParseState::Utf8 ==> {
            &&& 1 <= self@.rem <= 3
            &&& (self@.rem == 3 ==> self@.cp < 0x10)
            &&& (self@.rem == 2 ==> self@.cp < 0x400)
            &&& (self@.rem == 1 ==> self@.cp < 0x10000)
        })
    }

    /// A fresh parser in the ground state.
    pub fn new() -> (r: Parser)
        ensures
            r.wf(),
            r@.state == ParseState::Ground,
            r@.params == Seq::<u16>::empty(),
            r@.inters == Seq::<u8>::empty(),
            r@.current == 0,
            r@.any == false,
            r@.skip == false,
    {
        Parser {
            state: ParseState::Ground,
            params: Vec::new(),
            current: 0,
            any: false,
            skip: false,
            intermediates: Vec::new(),
            cp: 0,
            rem: 0,
        }
    }

    /// Back to ground with every collection cleared.
    fn reset_to_ground(&mut self)
        ensures
            final(self)@ == to_ground(old(self)@),
    {
        self.state = ParseState::Ground;
        self.params.clear();
        self.current = 0;
        self.any = false;
        self.skip = false;
        self.intermediates.clear();
        proof {
            assert(final(self)@ =~= to_ground(old(self)@));
        }
    }

    /// Handles one byte as ground input.
    fn ground_byte(&mut self, performer: &mut Terminal, byte: u8)
        requires
            old(self).wf(),
            old(self)@.state == ParseState::Ground,
            old(performer).wf(),
        ensures
            final(self).wf(),
            final(performer).wf(),
            final(self)@ == spec_ground_step(old(self)@, byte).0,
            final(performer)@ == spec_apply_event(
                old(performer)@,
                spec_ground_step(old(self)@, byte).1,
            ),
            eq_frame(*old(performer), *final(performer)),
    {
        if byte == ESC {
            self.intermediates.clear();
            self.state = ParseState::Escape;
            proof {
                assert(self@ =~= to_escape(old(self)@));
            }
        } else if byte < 0x20 {
            performer.execute(byte);
        } else if byte < 0x7F {
            performer.print(byte as char);
        } else if 0xC2 <= byte && byte <= 0xDF {
            self.cp = (byte - 0xC0) as u32;
            self.rem = 1;
            self.state = ParseState::Utf8;
        } else if 0xE0 <= byte && byte <= 0xEF {
            self.cp = (byte - 0xE0) as u32;
            self.rem = 2;
            self.state = ParseState::Utf8;
        } else if 0xF0 <= byte && byte <= 0xF4 {
            self.cp = (byte - 0xF0) as u32;
            self.rem = 3;
            self.state = ParseState::Utf8;
        }
    }

    /// Feeds one byte: the parser takes its transition and the emulator
    /// takes the event the byte completed, if any.
    pub fn advance(&mut self, performer: &mut Terminal, byte: u8)
        requires
            old(self).wf(),
            old(performer).wf(),
        ensures
            final(self).wf(),
            final(performer).wf(),
            final(self)@ == spec_parse_step(old(self)@, byte).0,
            final(performer)@ == spec_apply_event(
                old(performer)@,
                spec_parse_step(old(self)@, byte).1,
            ),
            eq_frame(*old(performer), *final(performer)),
    {
        match self.state {
            ParseState::Ground => {
                self.ground_byte(performer, byte);
            },
            ParseState::Escape => {
                if byte == 0x5B && self.intermediates.len() == 0 {
                    self.params.clear();
                    self.current = 0;
                    self.any = false;
                    self.skip = false;
                    self.state = ParseState::Csi;
                    proof {
                        assert(self@ =~= spec_escape_step(old(self)@, byte).0);
                    }
                } else if byte == 0x5D && self.intermediates.len() == 0 {
                    self.state = ParseState::Osc;
                } else if byte == 0x50 && self.intermediates.len() == 0 {
                    self.state = ParseState::Dcs;
                } else if byte == ESC {
                    self.intermediates.clear();
                    proof {
                        assert(self@ =~= to_escape(old(self)@));
                    }
                } else if 0x20 <= byte && byte <= 0x2F {
                    if self.intermediates.len() < 2 {
                        self.intermediates.push(byte);
                    }
                } else if 0x30 <= byte && byte <= 0x7E {
                    performer.esc_dispatch(&self.intermediates, byte);
                    self.reset_to_ground();
                } else if byte < 0x20 {
                    performer.execute(byte);
                } else if byte == 0x7F {
                } else {
                    self.state = ParseState::Ground;
                }
            },
            ParseState::Csi => {
                if 0x30 <= byte && byte <= 0x39 {
                    if !self.skip {
                        let d = (byte - 0x30) as u16;
                        if self.current <= (65535 - d) / 10 {
                            self.current = self.current * 10 + d;
                        } else {
                            self.current = 65535;
                        }
                    }
                    self.any = true;
                } else if byte == 0x3B {
                    if self.params.len() < 32 {
                        self.params.push(self.current);
                    }
                    self.current = 0;
                    self.any = true;
                    self.skip = false;
                } else if byte == 0x3A {
                    self.skip = true;
                    self.any = true;
                } else if (0x20 <= byte && byte <= 0x2F) || (0x3C <= byte && byte <= 0x3F) {
                    if self.intermediates.len() < 2 {
                        self.intermediates.push(byte);
                    }
                } else if 0x40 <= byte && byte <= 0x7E {
                    if self.any && self.params.len() < 32 {
                        self.params.push(self.current);
                    }
                    performer.csi_dispatch(&self.params, &self.intermediates, byte as char);
                    self.reset_to_ground();
                } else if byte == ESC {
                    self.intermediates.clear();
                    self.state = ParseState::Escape;
                    proof {
                        assert(self@ =~= to_escape(old(self)@));
                    }
                } else if byte < 0x20 {
                    performer.execute(byte);
                } else if byte == 0x7F {
                } else {
                    self.reset_to_ground();
                }
            },
            ParseState::Osc => {
                if byte == BEL {
                    self.state = ParseState::Ground;
                } else if byte == ESC {
                    self.intermediates.clear();
                    self.state = ParseState::Escape;
                    proof {
                        assert(self@ =~= to_escape(old(self)@));
                    }
                }
            },
            ParseState::Dcs => {
                if byte == ESC {
                    self.intermediates.clear();
                    self.state = ParseState::Escape;
                    proof {
                        assert(self@ =~= to_escape(old(self)@));
                    }
                }
            },
            ParseState::Utf8 => {
                if 0x80 <= byte && byte <= 0xBF {
                    let add = (byte - 0x80) as u32;
                    self.cp = self.cp * 64 + add;
                    self.rem = self.rem - 1;
                    if self.rem == 0 {
                        self.state = ParseState::Ground;
                        if let Some(c) = char::from_u32(self.cp) {
                            proof {
                                vstd::utf8::char_u32_cast(c, self.cp);
                            }
                            performer.print(c);
                        }
                    }
                } else {
                    self.state = ParseState::Ground;
                    self.ground_byte(performer, byte);
                }
            },
        }
    }
}

} // verus!
