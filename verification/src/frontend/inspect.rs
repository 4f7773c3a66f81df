//! Looking into a running Pokemon Emerald (US): the map tile under the player,
//! game variables, and the scripts of the current map. And when to sample the
//! program counter.

use vstd::prelude::*;

use crate::bits::{self, le16, le32};
use crate::bus::{Bus, BusState};

verus! {

broadcast use bits::group_and_bounds;

/// The byte at `addr`.
pub open spec fn byte_at(b: BusState, addr: u32) -> u8 {
    b.read8(addr).0
}

/// The halfword at `addr`, of any alignment.
pub open spec fn half_at(b: BusState, addr: u32) -> u16 {
    le16(byte_at(b, addr), byte_at(b, addr.wrapping_add(1)))
}

/// The word at `addr`, of any alignment.
pub open spec fn word_at(b: BusState, addr: u32) -> u32 {
    le32(
        byte_at(b, addr),
        byte_at(b, addr.wrapping_add(1)),
        byte_at(b, addr.wrapping_add(2)),
        byte_at(b, addr.wrapping_add(3)),
    )
}

/// The word at the aligned address.
pub open spec fn aligned_word_at(b: BusState, addr: u32) -> u32 {
    let a = addr & !3u32;
    le32(
        byte_at(b, a),
        byte_at(b, (a + 1) as u32),
        byte_at(b, (a + 2) as u32),
        byte_at(b, (a + 3) as u32),
    )
}

fn half(bus: &Bus, addr: u32) -> (v: u16)
    requires
        bus.wf(),
    ensures
        v == half_at(bus@, addr),
{
    le16(bus.peek8(addr), bus.peek8(addr.wrapping_add(1)))
}

fn word(bus: &Bus, addr: u32) -> (v: u32)
    requires
        bus.wf(),
    ensures
        v == word_at(bus@, addr),
{
    le32(
        bus.peek8(addr),
        bus.peek8(addr.wrapping_add(1)),
        bus.peek8(addr.wrapping_add(2)),
        bus.peek8(addr.wrapping_add(3)),
    )
}

/// Where the player is on the map.
#[derive(Debug, Clone, Copy, PartialEq, Eq, Structural)]
pub struct Position {
    pub x: i16,
    pub y: i16,
}

pub open spec fn position(b: BusState) -> Position {
    Position { x: half_at(b, 0x0203_7360) as i16, y: half_at(b, 0x0203_7362) as i16 }
}

/// The player's position.
pub fn player_position(bus: &Bus) -> (p: Position)
    requires
        bus.wf(),
    ensures
        p == position(bus@),
{
    Position { x: half(bus, 0x0203_7360) as i16, y: half(bus, 0x0203_7362) as i16 }
}

/// The map in memory.
#[derive(Debug, Clone, Copy, PartialEq, Eq, Structural)]
pub struct MapLayout {
    pub width: i32,
    pub height: i32,
    pub map_ptr: u32,
    pub layout_ptr: u32,
    pub primary_tileset: u32,
    pub secondary_tileset: u32,
}

pub open spec fn layout(b: BusState) -> MapLayout {
    let l = aligned_word_at(b, 0x0203_7318);
    MapLayout {
        width: aligned_word_at(b, 0x0300_5DC0) as i32,
        height: aligned_word_at(b, 0x0300_5DC4) as i32,
        map_ptr: aligned_word_at(b, 0x0300_5DC8),
        layout_ptr: l,
        primary_tileset: aligned_word_at(b, l.wrapping_add(0x10)),
        secondary_tileset: aligned_word_at(b, l.wrapping_add(0x14)),
    }
}

/// The current map.
pub fn map_layout(bus: &Bus) -> (l: MapLayout)
    requires
        bus.wf(),
    ensures
        l == layout(bus@),
{
    let layout_ptr: u32 = bus.peek32(0x0203_7318);
    MapLayout {
        width: bus.peek32(0x0300_5DC0) as i32,
        height: bus.peek32(0x0300_5DC4) as i32,
        map_ptr: bus.peek32(0x0300_5DC8),
        layout_ptr,
        primary_tileset: bus.peek32(layout_ptr.wrapping_add(0x10)),
        secondary_tileset: bus.peek32(layout_ptr.wrapping_add(0x14)),
    }
}

/// A map tile: its entry in the map, and its attributes, whose low byte is its
/// behaviour.
#[derive(Debug, Clone, Copy, PartialEq, Eq, Structural)]
pub struct Metatile {
    pub index: i32,
    pub raw: u16,
    pub id: u16,
    pub attrs_ptr: u32,
    pub attrs: u16,
    pub behavior: u8,
}

/// The tile at a position. Tiles from 0x200 on are in the secondary tileset.
pub open spec fn metatile(b: BusState, l: MapLayout, p: Position) -> Metatile {
    let index = (p.y as i32).wrapping_mul(l.width).wrapping_add(p.x as i32);
    let raw = half_at(b, l.map_ptr.wrapping_add((index as u32).wrapping_mul(2)));
    let id = raw & 0x03FF;
    let tileset = if id < 0x200 {
        l.primary_tileset
    } else {
        l.secondary_tileset
    };
    let local = if id < 0x200 {
        id as u32
    } else {
        (id - 0x200) as u32
    };
    let attrs_ptr = aligned_word_at(b, tileset.wrapping_add(0x10));
    let attrs = half_at(b, attrs_ptr.wrapping_add(local.wrapping_mul(2)));
    Metatile { index, raw, id, attrs_ptr, attrs, behavior: (attrs & 0xFF) as u8 }
}

/// Looks up the tile at a position.
pub fn metatile_at(bus: &Bus, l: MapLayout, p: Position) -> (m: Metatile)
    requires
        bus.wf(),
    ensures
        m == metatile(bus@, l, p),
{
    let index: i32 = (p.y as i32).wrapping_mul(l.width).wrapping_add(p.x as i32);
    let raw: u16 = half(bus, l.map_ptr.wrapping_add((index as u32).wrapping_mul(2)));
    let id: u16 = raw & 0x03FF;
    let (tileset, local): (u32, u32) = if id < 0x200 {
        (l.primary_tileset, id as u32)
    } else {
        (l.secondary_tileset, (id - 0x200) as u32)
    };
    let attrs_ptr: u32 = bus.peek32(tileset.wrapping_add(0x10));
    let attrs: u16 = half(bus, attrs_ptr.wrapping_add(local.wrapping_mul(2)));
    Metatile { index, raw, id, attrs_ptr, attrs, behavior: (attrs & 0xFF) as u8 }
}

/// The state of the player's avatar.
#[derive(Debug, Clone, Copy, PartialEq, Eq, Structural)]
pub struct Avatar {
    pub flags: u8,
    pub transition: u8,
    pub running: u8,
    pub tile: u8,
    pub object_bits: u32,
}

pub open spec fn avatar(b: BusState) -> Avatar {
    Avatar {
        flags: byte_at(b, 0x0203_7590),
        transition: byte_at(b, 0x0203_7591),
        running: byte_at(b, 0x0203_7592),
        tile: byte_at(b, 0x0203_7593),
        object_bits: aligned_word_at(b, 0x0203_7350),
    }
}

/// The avatar's state.
pub fn player_avatar(bus: &Bus) -> (a: Avatar)
    requires
        bus.wf(),
    ensures
        a == avatar(bus@),
{
    Avatar {
        flags: bus.peek8(0x0203_7590),
        transition: bus.peek8(0x0203_7591),
        running: bus.peek8(0x0203_7592),
        tile: bus.peek8(0x0203_7593),
        object_bits: bus.peek32(0x0203_7350),
    }
}

/// A game variable and where it is kept.
#[derive(Debug, Clone, Copy, PartialEq, Eq, Structural)]
pub struct GameVar {
    pub id: u16,
    pub addr: u32,
    pub value: u16,
}

/// The variable with offset `k`; `sb1` is where the save block is.
pub open spec fn variable(b: BusState, sb1: u32, k: int) -> GameVar {
    let addr = sb1.wrapping_add(0x139C).wrapping_add((2 * k) as u32);
    GameVar { id: (0x4000 + k) as u16, addr, value: half_at(b, addr) }
}

/// The variables 0x4020 to 0x4027. None before a game is loaded.
pub fn game_vars(bus: &Bus) -> (vars: Option<Vec<GameVar>>)
    requires
        bus.wf(),
    ensures
        vars is Some <==> aligned_word_at(bus@, 0x0300_5D8C) != 0,
        vars is Some ==> vars->0@ == Seq::new(
            8,
            |i: int| variable(bus@, aligned_word_at(bus@, 0x0300_5D8C), 0x20 + i),
        ),
{
    let sb1: u32 = bus.peek32(0x0300_5D8C);
    if sb1 == 0 {
        return None;
    }
    let mut vars: Vec<GameVar> = Vec::new();
    let mut i: u32 = 0;
    while i < 8
        invariant
            i <= 8,
            bus.wf(),
            vars@ == Seq::new(i as nat, |j: int| variable(bus@, sb1, 0x20 + j)),
        decreases 8 - i,
    {
        let addr: u32 = sb1.wrapping_add(0x139C).wrapping_add(2 * (0x20 + i));
        vars.push(GameVar { id: (0x4020 + i) as u16, addr, value: half(bus, addr) });
        i = i + 1;
        assert(vars@ =~= Seq::new(i as nat, |j: int| variable(bus@, sb1, 0x20 + j)));
    }
    Some(vars)
}

/// A script that runs when a variable has a value.
#[derive(Debug, Clone, Copy, PartialEq, Eq, Structural)]
pub struct Trigger {
    pub var: u16,
    pub value: u16,
    pub script: u32,
}

pub open spec fn trigger(b: BusState, addr: u32) -> Trigger {
    Trigger {
        var: half_at(b, addr),
        value: half_at(b, addr.wrapping_add(2)),
        script: word_at(b, addr.wrapping_add(4)),
    }
}

/// The triggers from `addr` on, `n` at most, up to one without a variable.
pub open spec fn triggers(b: BusState, addr: u32, n: nat) -> Seq<Trigger>
    decreases n,
{
    if n == 0 || half_at(b, addr) == 0 {
        Seq::empty()
    } else {
        seq![trigger(b, addr)] + triggers(b, addr.wrapping_add(8), (n - 1) as nat)
    }
}

/// Reads a trigger table.
pub fn trigger_table(bus: &Bus, start: u32) -> (table: Vec<Trigger>)
    requires
        bus.wf(),
    ensures
        table@ == triggers(bus@, start, 32),
{
    let mut table: Vec<Trigger> = Vec::new();
    let mut addr: u32 = start;
    let mut n: u32 = 32;
    while n > 0 && half(bus, addr) != 0
        invariant
            n <= 32,
            bus.wf(),
            table@ + triggers(bus@, addr, n as nat) == triggers(bus@, start, 32),
        decreases n,
    {
        let ghost before = table@;
        table.push(
            Trigger {
                var: half(bus, addr),
                value: half(bus, addr.wrapping_add(2)),
                script: word(bus, addr.wrapping_add(4)),
            },
        );
        let ghost rest = triggers(bus@, addr.wrapping_add(8), (n - 1) as nat);
        assert(table@ + rest =~= before + triggers(bus@, addr, n as nat));
        addr = addr.wrapping_add(8);
        n = n - 1;
    }
    assert(triggers(bus@, addr, n as nat) =~= Seq::empty());
    assert(table@ =~= triggers(bus@, start, 32));
    table
}

/// An entry of a map's script table.
#[derive(Debug, Clone, Copy, PartialEq, Eq, Structural)]
pub struct MapScript {
    pub kind: u8,
    pub ptr: u32,
}

/// The entries from `addr` on, `n` at most, up to one of kind zero.
pub open spec fn scripts(b: BusState, addr: u32, n: nat) -> Seq<MapScript>
    decreases n,
{
    if n == 0 || byte_at(b, addr) == 0 {
        Seq::empty()
    } else {
        seq![
            MapScript { kind: byte_at(b, addr), ptr: word_at(b, addr.wrapping_add(1)) },
        ] + scripts(b, addr.wrapping_add(5), (n - 1) as nat)
    }
}

/// Reads the script table of the current map. The entries of kinds 2 and 4
/// point to trigger tables.
pub fn map_scripts(bus: &Bus) -> (r: (u32, Vec<MapScript>))
    requires
        bus.wf(),
    ensures
        r.0 == aligned_word_at(bus@, 0x0203_7320),
        r.1@ == scripts(bus@, r.0, 16),
{
    let start: u32 = bus.peek32(0x0203_7320);
    let mut list: Vec<MapScript> = Vec::new();
    let mut addr: u32 = start;
    let mut n: u32 = 16;
    while n > 0 && bus.peek8(addr) != 0
        invariant
            n <= 16,
            bus.wf(),
            list@ + scripts(bus@, addr, n as nat) == scripts(bus@, start, 16),
        decreases n,
    {
        let ghost before = list@;
        list.push(MapScript { kind: bus.peek8(addr), ptr: word(bus, addr.wrapping_add(1)) });
        let ghost rest = scripts(bus@, addr.wrapping_add(5), (n - 1) as nat);
        assert(list@ + rest =~= before + scripts(bus@, addr, n as nat));
        addr = addr.wrapping_add(5);
        n = n - 1;
    }
    assert(scripts(bus@, addr, n as nat) =~= Seq::empty());
    assert(list@ =~= scripts(bus@, start, 16));
    (start, list)
}

/// Whether `pc` is in a region that holds code.
#[verifier::allow_in_spec]
pub fn in_code_region(pc: u32) -> bool
    returns
        ({
            let region = pc >> 24;
            region == 0x00 || region == 0x02 || region == 0x03 || (0x08 <= region && region
                <= 0x0D)
        }),
{
    match pc >> 24 {
        0x00 | 0x02 | 0x03 | 0x08..=0x0D => true,
        _ => false,
    }
}

/// Whether to report the program counter after this frame: twice a second, and
/// more often while it is outside all code.
#[verifier::allow_in_spec]
pub fn wants_sample(frame: u64, pc: u32) -> bool
    returns
        frame % 30 == 0 || (!in_code_region(pc) && frame % 5 == 0),
{
    frame % 30 == 0 || (!in_code_region(pc) && frame % 5 == 0)
}

/// A map lies row by row, two bytes a tile. The low ten bits of an entry number
/// the tile; tiles from 512 on are counted in the second set. The low byte of a
/// tile's attributes is its behaviour.
pub proof fn tiles_lie_in_rows(b: BusState, l: MapLayout, p: Position)
    requires
        0 <= p.x < l.width,
        0 <= p.y,
        0 <= l.width <= 0x1000,
    ensures
        ({
            let m = metatile(b, l, p);
            &&& m.index == p.y * l.width + p.x
            &&& m.id == m.raw % 1024
            &&& m.behavior == m.attrs % 256
            &&& m.id < 512 ==> m.attrs_ptr == aligned_word_at(
                b,
                l.primary_tileset.wrapping_add(0x10),
            ) && m.attrs == half_at(b, m.attrs_ptr.wrapping_add((2 * m.id) as u32))
            &&& m.id >= 512 ==> m.attrs_ptr == aligned_word_at(
                b,
                l.secondary_tileset.wrapping_add(0x10),
            ) && m.attrs == half_at(b, m.attrs_ptr.wrapping_add((2 * (m.id - 512)) as u32))
        }),
{
    let m = metatile(b, l, p);
    assert(0 <= p.y * l.width <= 0x7FFF * 0x1000) by (nonlinear_arith)
        requires
            0 <= p.y <= 0x7FFF,
            0 <= l.width <= 0x1000,
    ;
    entry_bits(m.raw);
    entry_bits(m.attrs);
}

proof fn entry_bits(x: u16)
    ensures
        x & 0x03FF == x % 1024,
        x & 0xFF == x % 256,
{
    bits::half_fields(x, 0, 0, 0);
}

} // verus!
