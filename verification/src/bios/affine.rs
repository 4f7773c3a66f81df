//! The calls that need trigonometry. The functions themselves are evaluated
//! outside: a call leaves a request, and goes on with the answer.

use vstd::prelude::*;

use crate::arm7tdmi::Cpu;
use crate::bits;
use crate::bus::{Bus, BusState};

verus! {

broadcast use bits::group_and_bounds;

/// A trigonometric function to evaluate.
#[derive(Debug, Clone, Copy, PartialEq, Eq, Structural)]
pub enum MathRequest {
    /// The angle whose tangent is `tan / 2^14`; a quarter turn is 2^14.
    ArcTan { tan: i16 },
    /// The direction of the point (x, y); half a turn is 2^15.
    ArcTan2 { x: i16, y: i16 },
    /// The matrix that scales by `sx / 2^8` and `sy / 2^8` and turns by
    /// `angle`, of which 2^16 is a full turn; its elements in units of 2^-8.
    Rotation { sx: i16, sy: i16, angle: u16 },
}

/// The elements of an affine transformation.
#[derive(Debug, Clone, Copy, PartialEq, Eq, Structural)]
pub struct Matrix {
    pub pa: i16,
    pub pb: i16,
    pub pc: i16,
    pub pd: i16,
}

/// The answer to a request.
#[derive(Debug, Clone, Copy, PartialEq, Eq, Structural)]
pub enum MathReply {
    Angle(i16),
    Transform(Matrix),
}

/// One parameter set of BgAffineSet.
#[derive(Debug, Clone, Copy, PartialEq, Eq, Structural)]
pub struct BgEntry {
    pub cx: i32,
    pub cy: i32,
    pub disp_x: i16,
    pub disp_y: i16,
    pub sx: i16,
    pub sy: i16,
    pub angle: u16,
}

/// One parameter set of ObjAffineSet.
#[derive(Debug, Clone, Copy, PartialEq, Eq, Structural)]
pub struct ObjEntry {
    pub sx: i16,
    pub sy: i16,
    pub angle: u16,
}

/// A call that waits for an answer. The affine set-ups go through their
/// parameter sets one by one.
#[derive(Debug, Clone, Copy, PartialEq, Eq, Structural)]
pub enum MathCall {
    ArcTan { tan: i16 },
    ArcTan2 { x: i16, y: i16 },
    BgAffine { index: u32, entry: BgEntry },
    ObjAffine { index: u32, params: ObjEntry },
}

impl MathCall {
    /// What the call waits for.
    #[verifier::allow_in_spec]
    pub fn request(&self) -> MathRequest
        returns
            (match *self {
                MathCall::ArcTan { tan } => MathRequest::ArcTan { tan },
                MathCall::ArcTan2 { x, y } => MathRequest::ArcTan2 { x, y },
                MathCall::BgAffine { index, entry } => MathRequest::Rotation {
                    sx: entry.sx,
                    sy: entry.sy,
                    angle: entry.angle,
                },
                MathCall::ObjAffine { index, params } => MathRequest::Rotation {
                    sx: params.sx,
                    sy: params.sy,
                    angle: params.angle,
                },
            }),
    {
        match *self {
            MathCall::ArcTan { tan } => MathRequest::ArcTan { tan },
            MathCall::ArcTan2 { x, y } => MathRequest::ArcTan2 { x, y },
            MathCall::BgAffine { index: _, entry } => MathRequest::Rotation {
                sx: entry.sx,
                sy: entry.sy,
                angle: entry.angle,
            },
            MathCall::ObjAffine { index: _, params } => MathRequest::Rotation {
                sx: params.sx,
                sy: params.sy,
                angle: params.angle,
            },
        }
    }
}

impl BgEntry {
    /// The entry at `addr`: centre (two words), displayed centre, scales and
    /// angle (halfwords).
    #[verifier::opaque]
    pub open spec fn read(b: BusState, addr: u32) -> (BgEntry, BusState) {
        let cx = b.read32(addr);
        let cy = cx.1.read32(addr.wrapping_add(4));
        let dx = cy.1.read16(addr.wrapping_add(8));
        let dy = dx.1.read16(addr.wrapping_add(10));
        let sx = dy.1.read16(addr.wrapping_add(12));
        let sy = sx.1.read16(addr.wrapping_add(14));
        let angle = sy.1.read16(addr.wrapping_add(16));
        (
            BgEntry {
                cx: cx.0 as i32,
                cy: cy.0 as i32,
                disp_x: dx.0 as i16,
                disp_y: dy.0 as i16,
                sx: sx.0 as i16,
                sy: sy.0 as i16,
                angle: angle.0,
            },
            angle.1,
        )
    }

    fn load(bus: &mut Bus, addr: u32) -> (entry: BgEntry)
        requires
            old(bus).wf(),
        ensures
            final(bus).wf(),
            (entry, final(bus)@) == BgEntry::read(old(bus)@, addr),
    {
        proof {
            reveal(BgEntry::read);
        }
        let cx: i32 = bus.read32(addr) as i32;
        let cy: i32 = bus.read32(addr.wrapping_add(4)) as i32;
        let disp_x: i16 = bus.read16(addr.wrapping_add(8)) as i16;
        let disp_y: i16 = bus.read16(addr.wrapping_add(10)) as i16;
        let sx: i16 = bus.read16(addr.wrapping_add(12)) as i16;
        let sy: i16 = bus.read16(addr.wrapping_add(14)) as i16;
        let angle: u16 = bus.read16(addr.wrapping_add(16));
        BgEntry { cx, cy, disp_x, disp_y, sx, sy, angle }
    }

    /// Where the transformed background starts, modulo 2^32: the centre less
    /// the transformed displayed centre.
    pub open spec fn start(self, m: Matrix) -> (u32, u32) {
        (
            (self.cx - (m.pa * self.disp_x + m.pb * self.disp_y)) as u32,
            (self.cy - (m.pc * self.disp_x + m.pd * self.disp_y)) as u32,
        )
    }

    fn start_point(&self, m: Matrix) -> (p: (u32, u32))
        ensures
            p == self.start(m),
    {
        (
            offset_from(self.cx, m.pa, self.disp_x, m.pb, self.disp_y),
            offset_from(self.cy, m.pc, self.disp_x, m.pd, self.disp_y),
        )
    }

    /// The bus after the result for this entry was stored at `addr`.
    #[verifier::opaque]
    pub open spec fn stored(self, b: BusState, addr: u32, m: Matrix) -> BusState {
        b.write16(addr, m.pa as u16).write16(addr.wrapping_add(2), m.pb as u16).write16(
            addr.wrapping_add(4),
            m.pc as u16,
        ).write16(addr.wrapping_add(6), m.pd as u16).write32(
            addr.wrapping_add(8),
            self.start(m).0,
        ).write32(addr.wrapping_add(12), self.start(m).1)
    }

    fn store(&self, bus: &mut Bus, addr: u32, m: Matrix)
        requires
            old(bus).wf(),
        ensures
            final(bus).wf(),
            final(bus)@ == self.stored(old(bus)@, addr, m),
    {
        proof {
            reveal(BgEntry::stored);
        }
        let p = self.start_point(m);
        bus.write16(addr, m.pa as u16);
        bus.write16(addr.wrapping_add(2), m.pb as u16);
        bus.write16(addr.wrapping_add(4), m.pc as u16);
        bus.write16(addr.wrapping_add(6), m.pd as u16);
        bus.write32(addr.wrapping_add(8), p.0);
        bus.write32(addr.wrapping_add(12), p.1);
    }
}

fn offset_from(c: i32, p: i16, x: i16, q: i16, y: i16) -> (r: u32)
    ensures
        r == (c - (p * x + q * y)) as u32,
{
    assert(-0x4000_0000 <= p * x <= 0x4000_0000 && -0x4000_0000 <= q * y <= 0x4000_0000)
        by (nonlinear_arith)
        requires
            -0x8000 <= p <= 0x7FFF,
            -0x8000 <= x <= 0x7FFF,
            -0x8000 <= q <= 0x7FFF,
            -0x8000 <= y <= 0x7FFF,
    ;
    let wide: i64 = c as i64 - ((p as i64) * (x as i64) + (q as i64) * (y as i64));
    wide as u32
}

impl ObjEntry {
    #[verifier::opaque]
    pub open spec fn read(b: BusState, addr: u32) -> (ObjEntry, BusState) {
        let sx = b.read16(addr);
        let sy = sx.1.read16(addr.wrapping_add(2));
        let angle = sy.1.read16(addr.wrapping_add(4));
        (ObjEntry { sx: sx.0 as i16, sy: sy.0 as i16, angle: angle.0 }, angle.1)
    }

    fn load(bus: &mut Bus, addr: u32) -> (entry: ObjEntry)
        requires
            old(bus).wf(),
        ensures
            final(bus).wf(),
            (entry, final(bus)@) == ObjEntry::read(old(bus)@, addr),
    {
        proof {
            reveal(ObjEntry::read);
        }
        let sx: i16 = bus.read16(addr) as i16;
        let sy: i16 = bus.read16(addr.wrapping_add(2)) as i16;
        let angle: u16 = bus.read16(addr.wrapping_add(4));
        ObjEntry { sx, sy, angle }
    }
}

impl Matrix {
    /// The bus after the four elements were stored from `addr` up, `stride`
    /// bytes apart.
    #[verifier::opaque]
    pub open spec fn stored(self, b: BusState, addr: u32, stride: u32) -> BusState {
        b.write16(addr, self.pa as u16).write16(addr.wrapping_add(stride), self.pb as u16).write16(
            addr.wrapping_add(stride.wrapping_mul(2)),
            self.pc as u16,
        ).write16(addr.wrapping_add(stride.wrapping_mul(3)), self.pd as u16)
    }

    fn store(&self, bus: &mut Bus, addr: u32, stride: u32)
        requires
            old(bus).wf(),
        ensures
            final(bus).wf(),
            final(bus)@ == self.stored(old(bus)@, addr, stride),
    {
        proof {
            reveal(Matrix::stored);
        }
        bus.write16(addr, self.pa as u16);
        bus.write16(addr.wrapping_add(stride), self.pb as u16);
        bus.write16(addr.wrapping_add(stride.wrapping_mul(2)), self.pc as u16);
        bus.write16(addr.wrapping_add(stride.wrapping_mul(3)), self.pd as u16);
    }
}

/// ArcTan waits for the angle of the tangent in R0.
pub open spec fn arctan_begun(c: Cpu) -> Cpu {
    Cpu { math_call: Some(MathCall::ArcTan { tan: c.regs[0] as i16 }), ..c }
}

pub fn swi_arctan(cpu: &mut Cpu)
    ensures
        *final(cpu) == arctan_begun(*old(cpu)),
{
    cpu.math_call = Some(MathCall::ArcTan { tan: cpu.regs[0] as i16 });
}

/// ArcTan2 waits for the direction of the point (R0, R1).
pub open spec fn arctan2_begun(c: Cpu) -> Cpu {
    Cpu {
        math_call: Some(MathCall::ArcTan2 { x: c.regs[0] as i16, y: c.regs[1] as i16 }),
        ..c
    }
}

pub fn swi_arctan2(cpu: &mut Cpu)
    ensures
        *final(cpu) == arctan2_begun(*old(cpu)),
{
    cpu.math_call = Some(MathCall::ArcTan2 { x: cpu.regs[0] as i16, y: cpu.regs[1] as i16 });
}

/// BgAffineSet at parameter set `index` of R2, which are read from R0: it
/// waits for the matrix, or is finished.
pub open spec fn bg_affine_at(c: Cpu, b: BusState, index: u32) -> (Cpu, BusState) {
    if index < c.regs[2] {
        let r = BgEntry::read(b, c.regs[0].wrapping_add(index.wrapping_mul(20)));
        (Cpu { math_call: Some(MathCall::BgAffine { index, entry: r.0 }), ..c }, r.1)
    } else {
        (Cpu { math_call: None, ..c }, b)
    }
}

fn bg_affine_from(cpu: &mut Cpu, bus: &mut Bus, index: u32)
    requires
        old(bus).wf(),
    ensures
        final(bus).wf(),
        (*final(cpu), final(bus)@) == bg_affine_at(*old(cpu), old(bus)@, index),
{
    if index < cpu.regs[2] {
        let entry = BgEntry::load(bus, cpu.regs[0].wrapping_add(index.wrapping_mul(20)));
        cpu.math_call = Some(MathCall::BgAffine { index, entry });
    } else {
        cpu.math_call = None;
    }
}

pub fn swi_bg_affine_set(cpu: &mut Cpu, bus: &mut Bus)
    requires
        old(bus).wf(),
    ensures
        final(bus).wf(),
        (*final(cpu), final(bus)@) == bg_affine_at(*old(cpu), old(bus)@, 0),
{
    bg_affine_from(cpu, bus, 0);
}

/// ObjAffineSet at parameter set `index`, likewise.
pub open spec fn obj_affine_at(c: Cpu, b: BusState, index: u32) -> (Cpu, BusState) {
    if index < c.regs[2] {
        let r = ObjEntry::read(b, c.regs[0].wrapping_add(index.wrapping_mul(8)));
        (Cpu { math_call: Some(MathCall::ObjAffine { index, params: r.0 }), ..c }, r.1)
    } else {
        (Cpu { math_call: None, ..c }, b)
    }
}

fn obj_affine_from(cpu: &mut Cpu, bus: &mut Bus, index: u32)
    requires
        old(bus).wf(),
    ensures
        final(bus).wf(),
        (*final(cpu), final(bus)@) == obj_affine_at(*old(cpu), old(bus)@, index),
{
    if index < cpu.regs[2] {
        let params = ObjEntry::load(bus, cpu.regs[0].wrapping_add(index.wrapping_mul(8)));
        cpu.math_call = Some(MathCall::ObjAffine { index, params });
    } else {
        cpu.math_call = None;
    }
}

pub fn swi_obj_affine_set(cpu: &mut Cpu, bus: &mut Bus)
    requires
        old(bus).wf(),
    ensures
        final(bus).wf(),
        (*final(cpu), final(bus)@) == obj_affine_at(*old(cpu), old(bus)@, 0),
{
    obj_affine_from(cpu, bus, 0);
}

/// Processor and bus after a waiting call got its answer. An angle goes to R0.
/// A matrix is stored and the next parameter set is taken up. An answer of the
/// wrong kind changes nothing.
pub open spec fn answered(c: Cpu, b: BusState, reply: MathReply) -> (Cpu, BusState) {
    match (c.math_call, reply) {
        (Some(MathCall::ArcTan { tan }), MathReply::Angle(a)) => (
            Cpu { math_call: None, ..c.with_reg(0, a as u16 as u32) },
            b,
        ),
        (Some(MathCall::ArcTan2 { x, y }), MathReply::Angle(a)) => (
            Cpu { math_call: None, ..c.with_reg(0, a as u16 as u32) },
            b,
        ),
        (Some(MathCall::BgAffine { index, entry }), MathReply::Transform(m)) => bg_affine_at(
            c,
            entry.stored(b, c.regs[1].wrapping_add(index.wrapping_mul(16)), m),
            index.wrapping_add(1),
        ),
        (Some(MathCall::ObjAffine { index, params }), MathReply::Transform(m)) => obj_affine_at(
            c,
            m.stored(
                b,
                c.regs[1].wrapping_add(index.wrapping_mul(c.regs[3]).wrapping_mul(4)),
                c.regs[3],
            ),
            index.wrapping_add(1),
        ),
        _ => (c, b),
    }
}

/// Hands a waiting call its answer.
pub fn answer_math(cpu: &mut Cpu, bus: &mut Bus, reply: MathReply)
    requires
        old(bus).wf(),
    ensures
        final(bus).wf(),
        (*final(cpu), final(bus)@) == answered(*old(cpu), old(bus)@, reply),
{
    match (cpu.math_call, reply) {
        (Some(MathCall::ArcTan { tan: _ }), MathReply::Angle(a)) => {
            cpu.regs[0] = a as u16 as u32;
            cpu.math_call = None;
        },
        (Some(MathCall::ArcTan2 { x: _, y: _ }), MathReply::Angle(a)) => {
            cpu.regs[0] = a as u16 as u32;
            cpu.math_call = None;
        },
        (Some(MathCall::BgAffine { index, entry }), MathReply::Transform(m)) => {
            entry.store(bus, cpu.regs[1].wrapping_add(index.wrapping_mul(16)), m);
            bg_affine_from(cpu, bus, index.wrapping_add(1));
        },
        (Some(MathCall::ObjAffine { index, params: _ }), MathReply::Transform(m)) => {
            let stride: u32 = cpu.regs[3];
            let addr: u32 = cpu.regs[1].wrapping_add(index.wrapping_mul(stride).wrapping_mul(4));
            m.store(bus, addr, stride);
            obj_affine_from(cpu, bus, index.wrapping_add(1));
        },
        _ => {},
    }
}

} // verus!
