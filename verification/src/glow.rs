use vstd::prelude::*;
use crate::color::Color;
use crate::config::Config;
use crate::menu::{spec_module_enabled, spec_toggle_module, ModuleId};

verus! {

/// Where the glow fields lie: `m_glow` is the glow property's offset in a
/// player pawn, the others are offsets inside that property.
#[derive(Clone, Copy, Debug, PartialEq, Eq, Structural)]
pub struct GlowOffsets {
    pub m_glow: u64,
    pub glow_color: u64,
    pub glowing: u64,
    pub glow_range: u64,
    pub glow_type: u64,
    pub glow_color_override: u64,
}

/// The offsets of the game's fields that the features use.
#[derive(Clone, Copy, Debug, PartialEq, Eq, Structural)]
pub struct Offsets {
    pub glow: GlowOffsets,
}

/// What is known of a player in this frame: the address of its pawn,
/// whether the player is valid (alive, present) and its team number.
#[derive(Clone, Copy, Debug, PartialEq, Eq, Structural)]
pub struct Player {
    pub pawn: u64,
    pub valid: bool,
    pub team: u8,
}

/// The game as the features see it in one frame: the field offsets, the
/// players, and the team of the local player when there is one.
#[derive(Clone, Debug)]
pub struct CS2 {
    pub offsets: Offsets,
    pub players: Vec<Player>,
    pub local_team: Option<u8>,
}

/// A value written into the game's memory; `Rgb` is written as three
/// 32-bit floats, one for each channel, in the range 0 to 255.
#[derive(Clone, Copy, Debug, PartialEq, Eq, Structural)]
pub enum GlowValue {
    Byte(u8),
    Word(u32),
    Int(i32),
    Rgb(u8, u8, u8),
}

/// One write into the game's memory.
#[derive(Clone, Copy, Debug, PartialEq, Eq, Structural)]
pub struct GlowWrite {
    pub address: u64,
    pub value: GlowValue,
}

/// The packed colour override: alpha 255 in the top byte, then red, green
/// and blue, read as a signed 32-bit integer.
pub open spec fn spec_color_override(c: Color) -> int {
    0xFF00_0000 + c.r * 0x1_0000 + c.g * 0x100 + c.b - 0x1_0000_0000
}

/// Whether a player gets the glow: a valid player that is an enemy, or a
/// teammate when teammates are shown.
pub open spec fn glow_selected(p: Player, local_team: u8, show_friendlies: bool) -> bool {
    p.valid && !(p.team == local_team && !show_friendlies)
}

/// The five writes that make one player glow in colour `c`.
pub open spec fn spec_player_writes(p: Player, o: GlowOffsets, c: Color) -> Seq<GlowWrite> {
    let base = p.pawn + o.m_glow;
    seq![
        GlowWrite { address: (base + o.glowing) as u64, value: GlowValue::Byte(1) },
        GlowWrite { address: (base + o.glow_range) as u64, value: GlowValue::Word(0xFFFF) },
        GlowWrite { address: (base + o.glow_type) as u64, value: GlowValue::Int(0) },
        GlowWrite { address: (base + o.glow_color) as u64, value: GlowValue::Rgb(c.r, c.g, c.b) },
        GlowWrite {
            address: (base + o.glow_color_override) as u64,
            value: GlowValue::Int(spec_color_override(c) as i32),
        },
    ]
}

/// The writes for the players in order, the selected ones only.
pub open spec fn spec_glow_plan(
    players: Seq<Player>,
    local_team: u8,
    show_friendlies: bool,
    o: GlowOffsets,
    c: Color,
) -> Seq<GlowWrite>
    decreases players.len(),
{
    if players.len() == 0 {
        Seq::empty()
    } else {
        let rest = spec_glow_plan(players.drop_last(), local_team, show_friendlies, o, c);
        if glow_selected(players.last(), local_team, show_friendlies) {
            rest + spec_player_writes(players.last(), o, c)
        } else {
            rest
        }
    }
}

/// Every address that a player's writes use fits in 64 bits.
pub open spec fn player_fits(p: Player, o: GlowOffsets) -> bool {
    &&& p.pawn + o.m_glow + o.glowing <= u64::MAX
    &&& p.pawn + o.m_glow + o.glow_range <= u64::MAX
    &&& p.pawn + o.m_glow + o.glow_type <= u64::MAX
    &&& p.pawn + o.m_glow + o.glow_color <= u64::MAX
    &&& p.pawn + o.m_glow + o.glow_color_override <= u64::MAX
}


/// The number of players that get the glow.
pub open spec fn count_selected(players: Seq<Player>, local_team: u8, show_friendlies: bool) -> nat
    decreases players.len(),
{
    if players.len() == 0 {
        0
    } else {
        count_selected(players.drop_last(), local_team, show_friendlies) + if glow_selected(
            players.last(),
            local_team,
            show_friendlies,
        ) {
            1nat
        } else {
            0nat
        }
    }
}

/// Each player that gets the glow gets exactly five writes.
pub proof fn law_glow_plan_length(players: Seq<Player>, local_team: u8, show_friendlies: bool, o: GlowOffsets, c: Color)
    ensures
        spec_glow_plan(players, local_team, show_friendlies, o, c).len() == 5 * count_selected(
            players,
            local_team,
            show_friendlies,
        ),
    decreases players.len(),
{
    if players.len() > 0 {
        law_glow_plan_length(players.drop_last(), local_team, show_friendlies, o, c);
    }
}

/// Every write of the glow feature belongs to a player that gets the glow:
/// a teammate is never touched while teammates are hidden, nor an invalid
/// player.
pub proof fn law_glow_writes_only_selected(
    players: Seq<Player>,
    local_team: u8,
    show_friendlies: bool,
    o: GlowOffsets,
    c: Color,
    w: GlowWrite,
)
    requires
        spec_glow_plan(players, local_team, show_friendlies, o, c).contains(w),
    ensures
        exists|i: int|
            0 <= i < players.len() && glow_selected(#[trigger] players[i], local_team, show_friendlies)
                && spec_player_writes(players[i], o, c).contains(w),
    decreases players.len(),
{
    let d = players.drop_last();
    let rest = spec_glow_plan(d, local_team, show_friendlies, o, c);
    let plan = spec_glow_plan(players, local_team, show_friendlies, o, c);
    let k = choose|k: int| 0 <= k < plan.len() && plan[k] == w;
    if k < rest.len() {
        assert(rest[k] == w);
        law_glow_writes_only_selected(d, local_team, show_friendlies, o, c, w);
        let i = choose|i: int|
            0 <= i < d.len() && glow_selected(#[trigger] d[i], local_team, show_friendlies)
                && spec_player_writes(d[i], o, c).contains(w);
        assert(players[i] == d[i]);
    } else {
        let last = players.last();
        let pw = spec_player_writes(last, o, c);
        assert(glow_selected(last, local_team, show_friendlies));
        assert(pw[k - rest.len()] == w);
        assert(players[players.len() - 1] == last);
    }
}

/// Every player that gets the glow gets all five of its writes.
pub proof fn law_glow_covers_selected(
    players: Seq<Player>,
    local_team: u8,
    show_friendlies: bool,
    o: GlowOffsets,
    c: Color,
    i: int,
    j: int,
)
    requires
        0 <= i < players.len(),
        glow_selected(players[i], local_team, show_friendlies),
        0 <= j < 5,
    ensures
        spec_glow_plan(players, local_team, show_friendlies, o, c).contains(spec_player_writes(players[i], o, c)[j]),
    decreases players.len(),
{
    let d = players.drop_last();
    let rest = spec_glow_plan(d, local_team, show_friendlies, o, c);
    let plan = spec_glow_plan(players, local_team, show_friendlies, o, c);
    let w = spec_player_writes(players[i], o, c)[j];
    if i < players.len() - 1 {
        assert(d[i] == players[i]);
        law_glow_covers_selected(d, local_team, show_friendlies, o, c, i, j);
        let k = choose|k: int| 0 <= k < rest.len() && rest[k] == w;
        assert(plan[k] == w);
    } else {
        assert(plan[rest.len() + j] == w);
    }
}

/// With the feature off, or with no local player, nothing is written.
pub proof fn law_glow_off(game: CS2, config: Config)
    requires
        !config.misc.glow_enabled || game.local_team is None,
    ensures
        game.spec_glow(config) == Seq::<GlowWrite>::empty(),
{
}


/// The glow feature writes only while its card is switched on: a click on
/// the Glow card of an enabled glow stops every write, and the feature
/// writes nothing whenever the card shows it off.
pub proof fn law_glow_follows_card(game: CS2, config: Config)
    ensures
        !spec_module_enabled(config, ModuleId::Glow) ==> game.spec_glow(config) == Seq::<GlowWrite>::empty(),
        spec_module_enabled(config, ModuleId::Glow) ==> game.spec_glow(spec_toggle_module(config, ModuleId::Glow))
            == Seq::<GlowWrite>::empty(),
{
}


/// One of the five writes that make the player with pawn `pawn` glow in
/// colour `c`: glow on, full range, type 0, the colour, and the packed
/// override (alpha 255, red, green, blue, read as a signed integer).
pub open spec fn is_glow_write_for(w: GlowWrite, pawn: u64, o: GlowOffsets, c: Color) -> bool {
    let base = pawn + o.m_glow;
    ||| w.address == base + o.glowing && w.value == GlowValue::Byte(1)
    ||| w.address == base + o.glow_range && w.value == GlowValue::Word(0xFFFF)
    ||| w.address == base + o.glow_type && w.value == GlowValue::Int(0)
    ||| w.address == base + o.glow_color && w.value == GlowValue::Rgb(c.r, c.g, c.b)
    ||| w.address == base + o.glow_color_override && w.value == GlowValue::Int(
        (0xFF00_0000 + c.r * 0x1_0000 + c.g * 0x100 + c.b - 0x1_0000_0000) as i32,
    )
}

/// No write of the glow feature ever lands on an invalid player, nor on a
/// teammate while teammates are hidden: every write is one of the five
/// glow writes of a valid player that is an enemy, or a teammate when
/// teammates are shown.
pub proof fn law_glow_only_valid_targets(game: CS2, config: Config, w: GlowWrite)
    requires
        game.glow_fits(config),
        game.spec_glow(config).contains(w),
    ensures
        config.misc.glow_enabled,
        game.local_team is Some,
        exists|i: int|
            0 <= i < game.players@.len() && (#[trigger] game.players@[i]).valid && (game.players@[i].team
                != game.local_team.unwrap() || config.player.show_friendlies) && is_glow_write_for(
                w,
                game.players@[i].pawn,
                game.offsets.glow,
                config.misc.glow_color,
            ),
{
    let players = game.players@;
    let t = game.local_team.unwrap();
    let sf = config.player.show_friendlies;
    let o = game.offsets.glow;
    let c = config.misc.glow_color;
    law_glow_writes_only_selected(players, t, sf, o, c, w);
    let i = choose|i: int|
        0 <= i < players.len() && glow_selected(#[trigger] players[i], t, sf)
            && spec_player_writes(players[i], o, c).contains(w);
    let pw = spec_player_writes(players[i], o, c);
    let k = choose|k: int| 0 <= k < pw.len() && pw[k] == w;
    assert(player_fits(players[i], o));
    assert(is_glow_write_for(w, players[i].pawn, o, c));
}

/// Every valid enemy, and every valid teammate when teammates are shown,
/// gets all five glow writes while the feature is on and there is a local
/// player.
pub proof fn law_glow_reaches_every_target(game: CS2, config: Config, i: int)
    requires
        game.glow_fits(config),
        config.misc.glow_enabled,
        game.local_team is Some,
        0 <= i < game.players@.len(),
        game.players@[i].valid,
        game.players@[i].team != game.local_team.unwrap() || config.player.show_friendlies,
    ensures
        forall|w: GlowWrite|
            is_glow_write_for(w, game.players@[i].pawn, game.offsets.glow, config.misc.glow_color)
                ==> #[trigger] game.spec_glow(config).contains(w),
{
    let players = game.players@;
    let t = game.local_team.unwrap();
    let sf = config.player.show_friendlies;
    let o = game.offsets.glow;
    let c = config.misc.glow_color;
    assert(player_fits(players[i], o));
    assert forall|w: GlowWrite| is_glow_write_for(w, players[i].pawn, o, c) implies #[trigger] game.spec_glow(
        config,
    ).contains(w) by {
        let pw = spec_player_writes(players[i], o, c);
        let j: int = if pw[1] == w {
            1
        } else if pw[2] == w {
            2
        } else if pw[3] == w {
            3
        } else if pw[4] == w {
            4
        } else {
            0
        };
        assert(pw[j] == w);
        law_glow_covers_selected(players, t, sf, o, c, i, j);
    }
}

/// The colour override is negative (its alpha byte is full) and gives back
/// each channel of the glow colour.
pub proof fn law_color_override_channels(c: Color)
    ensures
        spec_color_override(c) < 0,
        (spec_color_override(c) + 0x1_0000_0000) / 0x100_0000 == 0xFF,
        ((spec_color_override(c) + 0x1_0000_0000) / 0x1_0000) % 0x100 == c.r,
        ((spec_color_override(c) + 0x1_0000_0000) / 0x100) % 0x100 == c.g,
        (spec_color_override(c) + 0x1_0000_0000) % 0x100 == c.b,
{
    let r = c.r as int;
    let g = c.g as int;
    let b = c.b as int;
    assert(0 <= r < 256 && 0 <= g < 256 && 0 <= b < 256);
    assert((0xFF00_0000 + r * 0x1_0000 + g * 0x100 + b) / 0x100_0000 == 0xFF) by (nonlinear_arith)
        requires
            0 <= r < 256,
            0 <= g < 256,
            0 <= b < 256,
    ;
    assert(((0xFF00_0000 + r * 0x1_0000 + g * 0x100 + b) / 0x1_0000) % 0x100 == r) by (nonlinear_arith)
        requires
            0 <= r < 256,
            0 <= g < 256,
            0 <= b < 256,
    ;
    assert(((0xFF00_0000 + r * 0x1_0000 + g * 0x100 + b) / 0x100) % 0x100 == g) by (nonlinear_arith)
        requires
            0 <= r < 256,
            0 <= g < 256,
            0 <= b < 256,
    ;
    assert((0xFF00_0000 + r * 0x1_0000 + g * 0x100 + b) % 0x100 == b) by (nonlinear_arith)
        requires
            0 <= r < 256,
            0 <= g < 256,
            0 <= b < 256,
    ;
}

/// Packs the glow colour into the override field's value.
pub fn color_override(c: Color) -> (v: i32)
    ensures
        v == spec_color_override(c),
{
    let r = c.r;
    let g = c.g;
    let b = c.b;
    let packed: u32 = 255u32 << 24 | (r as u32) << 16 | (g as u32) << 8 | b as u32;
    assert(packed == 0xFF00_0000 + r * 0x1_0000 + g * 0x100 + b) by (bit_vector)
        requires
            packed == 255u32 << 24 | (r as u32) << 16 | (g as u32) << 8 | b as u32,
    ;
    assert(packed >= 0x8000_0000);
    let v = packed as i32;
    assert(v == packed - 0x1_0000_0000) by (bit_vector)
        requires
            v == packed as i32,
            packed >= 0x8000_0000u32,
    ;
    v
}

impl CS2 {
    /// The writes of the glow feature for this frame under `config`.
    pub open spec fn spec_glow(&self, config: Config) -> Seq<GlowWrite> {
        if !config.misc.glow_enabled || self.local_team is None {
            Seq::empty()
        } else {
            spec_glow_plan(
                self.players@,
                self.local_team.unwrap(),
                config.player.show_friendlies,
                self.offsets.glow,
                config.misc.glow_color,
            )
        }
    }

    /// The addresses that the glow feature writes to under `config` fit in
    /// 64 bits.
    pub open spec fn glow_fits(&self, config: Config) -> bool {
        config.misc.glow_enabled && self.local_team is Some ==> forall|i: int|
            0 <= i < self.players@.len() && glow_selected(
                #[trigger] self.players@[i],
                self.local_team.unwrap(),
                config.player.show_friendlies,
            ) ==> player_fits(self.players@[i], self.offsets.glow)
    }


    /// Whether every address the glow feature would write to under
    /// `config` fits in 64 bits; where one does not, the feature cannot run.
    pub fn glow_addresses_fit(&self, config: &Config) -> (ok: bool)
        ensures
            ok == self.glow_fits(*config),
    {
        if !config.misc.glow_enabled {
            return true;
        }
        let local_team = match self.local_team {
            Some(t) => t,
            None => {
                return true;
            },
        };
        let show_friendlies = config.player.show_friendlies;
        let o = self.offsets.glow;
        let mut i: usize = 0;
        while i < self.players.len()
            invariant
                i <= self.players@.len(),
                config.misc.glow_enabled,
                self.local_team == Some(local_team),
                show_friendlies == config.player.show_friendlies,
                o == self.offsets.glow,
                forall|j: int|
                    0 <= j < i && glow_selected(#[trigger] self.players@[j], local_team, show_friendlies)
                        ==> player_fits(self.players@[j], o),
            decreases self.players@.len() - i,
        {
            let p = self.players[i];
            if p.valid && !(p.team == local_team && !show_friendlies) {
                let fits = match p.pawn.checked_add(o.m_glow) {
                    Some(base) => {
                        base.checked_add(o.glowing).is_some() && base.checked_add(o.glow_range).is_some()
                            && base.checked_add(o.glow_type).is_some() && base.checked_add(o.glow_color).is_some()
                            && base.checked_add(o.glow_color_override).is_some()
                    },
                    None => false,
                };
                if !fits {
                    assert(glow_selected(self.players@[i as int], local_team, show_friendlies));
                    return false;
                }
            }
            i = i + 1;
        }
        true
    }

    /// The glow feature for one frame: when it is enabled and there is a
    /// local player, every valid enemy (and every valid teammate when
    /// teammates are shown) gets its glow switched on, its range, its type,
    /// its colour and its colour override, in that order.
    pub fn glow(&self, config: &Config) -> (writes: Vec<GlowWrite>)
        requires
            self.glow_fits(*config),
        ensures
            writes@ == self.spec_glow(*config),
    {
        let mut writes: Vec<GlowWrite> = Vec::new();
        if !config.misc.glow_enabled {
            return writes;
        }
        let local_team = match self.local_team {
            Some(t) => t,
            None => {
                return writes;
            },
        };
        let show_friendlies = config.player.show_friendlies;
        let color = config.misc.glow_color;
        let o = self.offsets.glow;
        let override_value = color_override(color);

        let mut i: usize = 0;
        while i < self.players.len()
            invariant
                i <= self.players@.len(),
                self.glow_fits(*config),
                config.misc.glow_enabled,
                self.local_team == Some(local_team),
                show_friendlies == config.player.show_friendlies,
                color == config.misc.glow_color,
                o == self.offsets.glow,
                override_value == spec_color_override(color),
                writes@ == spec_glow_plan(self.players@.take(i as int), local_team, show_friendlies, o, color),
            decreases self.players@.len() - i,
        {
            let player = self.players[i];
            assert(self.players@.take(i + 1).drop_last() =~= self.players@.take(i as int));
            assert(self.players@.take(i + 1).last() == player);
            if player.valid && !(player.team == local_team && !show_friendlies) {
                assert(glow_selected(self.players@[i as int], local_team, show_friendlies));
                let base = player.pawn + o.m_glow;
                let ghost before = writes@;
                writes.push(GlowWrite { address: base + o.glowing, value: GlowValue::Byte(1) });
                writes.push(GlowWrite { address: base + o.glow_range, value: GlowValue::Word(0xFFFF) });
                writes.push(GlowWrite { address: base + o.glow_type, value: GlowValue::Int(0) });
                writes.push(
                    GlowWrite {
                        address: base + o.glow_color,
                        value: GlowValue::Rgb(color.r, color.g, color.b),
                    },
                );
                writes.push(
                    GlowWrite { address: base + o.glow_color_override, value: GlowValue::Int(override_value) },
                );
                assert(writes@ =~= before + spec_player_writes(player, o, color));
            }
            i = i + 1;
        }
        assert(self.players@.take(self.players@.len() as int) =~= self.players@);
        writes
    }
}

} // verus!
