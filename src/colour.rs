use vstd::prelude::*;

verus! {

/// A colour as red, green and blue components.
#[derive(Clone, Copy, Debug, PartialEq, Eq, Structural)]
pub struct Rgb {
    pub r: u8,
    pub g: u8,
    pub b: u8,
}

/// The colour of an empty server (Discord's "dark purple", 0x71368A).
pub const EMPTY_R: u8 = 0x71;
pub const EMPTY_G: u8 = 0x36;
pub const EMPTY_B: u8 = 0x8A;

/// The colour of a full server (Discord's "fabled pink", 0xFAB1ED).
pub const FULL_R: u8 = 0xFA;
pub const FULL_G: u8 = 0xB1;
pub const FULL_B: u8 = 0xED;

/// The colour of an offline server (Discord's "red", 0xE74C3C).
pub const OFFLINE_R: u8 = 0xE7;
pub const OFFLINE_G: u8 = 0x4C;
pub const OFFLINE_B: u8 = 0x3C;

pub open spec fn empty_colour() -> Rgb {
    Rgb { r: EMPTY_R, g: EMPTY_G, b: EMPTY_B }
}

pub open spec fn full_colour() -> Rgb {
    Rgb { r: FULL_R, g: FULL_G, b: FULL_B }
}

pub open spec fn offline_colour() -> Rgb {
    Rgb { r: OFFLINE_R, g: OFFLINE_G, b: OFFLINE_B }
}

/// The colour of an offline server.
pub fn offline() -> (c: Rgb)
    ensures
        c == offline_colour(),
{
    Rgb { r: OFFLINE_R, g: OFFLINE_G, b: OFFLINE_B }
}

/// The fill ratio `players / max_players` as a numerator over
/// `max_players`, clamped to at most one.
pub open spec fn fill(players: nat, max_players: nat) -> nat {
    if players > max_players {
        max_players
    } else {
        players
    }
}

/// One component mixed between `e` (empty) and `f` (full) at `q / m`, for
/// `m > 0`, rounded down.
pub open spec fn mix_component(e: nat, f: nat, q: nat, m: nat) -> nat {
    ((e * (m - q) + f * q) as nat) / m
}

/// The colour of a server with `players` of `max_players`. With a capacity of
/// zero the ratio is clamped as well: no players is empty (0/0 counts as
/// empty), any players is full.
pub open spec fn fill_colour(players: nat, max_players: nat) -> Rgb {
    if max_players == 0 {
        if players == 0 {
            empty_colour()
        } else {
            full_colour()
        }
    } else {
        let q = fill(players, max_players);
        let m = max_players;
        Rgb {
            r: mix_component(EMPTY_R as nat, FULL_R as nat, q, m) as u8,
            g: mix_component(EMPTY_G as nat, FULL_G as nat, q, m) as u8,
            b: mix_component(EMPTY_B as nat, FULL_B as nat, q, m) as u8,
        }
    }
}

proof fn lemma_mix_bounds(e: nat, f: nat, q: nat, m: nat)
    requires
        q <= m,
        m > 0,
    ensures
        mix_component(e, f, q, m) <= if e > f { e } else { f },
        mix_component(e, f, q, m) >= if e < f { e } else { f },
{
    let hi: nat = if e > f { e } else { f };
    let lo: nat = if e < f { e } else { f };
    let s = e * (m - q) + f * q;
    assert(s <= hi * m) by (nonlinear_arith)
        requires
            s == e * (m - q) + f * q,
            q <= m,
            e <= hi,
            f <= hi,
    ;
    assert(s >= lo * m) by (nonlinear_arith)
        requires
            s == e * (m - q) + f * q,
            q <= m,
            e >= lo,
            f >= lo,
    ;
    assert((s as nat) / m <= hi) by (nonlinear_arith)
        requires
            s <= hi * m,
            m > 0,
            s >= 0,
    ;
    assert((s as nat) / m >= lo) by (nonlinear_arith)
        requires
            s >= lo * m,
            m > 0,
    ;
}

fn mix_exec(e: u8, f: u8, q: u8, m: u8) -> (r: u8)
    requires
        q <= m,
        m > 0,
    ensures
        r as nat == mix_component(e as nat, f as nat, q as nat, m as nat),
{
    proof {
        lemma_mix_bounds(e as nat, f as nat, q as nat, m as nat);
        assert((e as nat) * ((m - q) as nat) <= 255 * 255) by (nonlinear_arith)
            requires
                e <= 255,
                m - q <= 255,
                q <= m,
        ;
        assert((f as nat) * (q as nat) <= 255 * 255) by (nonlinear_arith)
            requires
                f <= 255,
                q <= 255,
        ;
    }
    let s: u32 = (e as u32) * ((m - q) as u32) + (f as u32) * (q as u32);
    (s / (m as u32)) as u8
}

/// The colour of a server with `players` of `max_players` seats, mixed
/// linearly from the empty colour to the full colour by the fill ratio. The
/// ratio is clamped to one, also over a capacity of zero, where no players
/// counts as empty; each component is rounded down.
pub fn player_colour(players: u8, max_players: u8) -> (c: Rgb)
    ensures
        c == fill_colour(players as nat, max_players as nat),
{
    if max_players == 0 {
        if players == 0 {
            Rgb { r: EMPTY_R, g: EMPTY_G, b: EMPTY_B }
        } else {
            Rgb { r: FULL_R, g: FULL_G, b: FULL_B }
        }
    } else {
        let q = if players > max_players {
            max_players
        } else {
            players
        };
        Rgb {
            r: mix_exec(EMPTY_R, FULL_R, q, max_players),
            g: mix_exec(EMPTY_G, FULL_G, q, max_players),
            b: mix_exec(EMPTY_B, FULL_B, q, max_players),
        }
    }
}

/// An empty server shows the empty colour, and a full or over-full one the
/// full colour; a capacity of zero with no players counts as empty.
pub proof fn lemma_colour_endpoints(players: u8, max_players: u8)
    ensures
        fill_colour(0, max_players as nat) == empty_colour(),
        max_players > 0 && players >= max_players ==> fill_colour(players as nat, max_players as nat)
            == full_colour(),
        max_players == 0 && players > 0 ==> fill_colour(players as nat, 0) == full_colour(),
{
    let m = max_players as nat;
    if m > 0 {
        assert forall|e: nat, f: nat| #[trigger] mix_component(e, f, 0, m) == e by {
            assert((e * m + f * 0) as nat / m == e) by (nonlinear_arith)
                requires
                    m > 0,
            ;
        }
        assert forall|e: nat, f: nat| #[trigger] mix_component(e, f, m, m) == f by {
            assert((e * 0 + f * m) as nat / m == f) by (nonlinear_arith)
                requires
                    m > 0,
            ;
        }
    }
}

/// A server's colour always differs from the offline colour: its blue
/// component never drops below that of the empty colour.
pub proof fn lemma_colour_not_offline(players: u8, max_players: u8)
    ensures
        fill_colour(players as nat, max_players as nat) != offline_colour(),
{
    let q = fill(players as nat, max_players as nat);
    if max_players > 0 {
        lemma_mix_bounds(EMPTY_B as nat, FULL_B as nat, q, max_players as nat);
    }
}

} // verus!
