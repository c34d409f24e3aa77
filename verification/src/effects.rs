//! Non-damaging visual telegraphs the bosses emit: converging "gather"
//! particles, growing and shrinking circles, and sparks. They carry no
//! collision; a renderer draws them as charge-up cues (ReC98 `gather_*` /
//! `circles_*` / `sparks_*`). Positions are subpixels (16/px).

use vstd::prelude::*;

verus! {

/// Which telegraph this is.
#[derive(Debug, Clone, Copy, PartialEq, Eq, Structural)]
pub enum EffectKind {
    /// `gather_add*`: particles converging on a point (attack charge-up).
    Gather,
    /// `circles_add_shrinking`: a ring collapsing inward.
    CircleShrink,
    /// `circles_add_growing`: a ring expanding outward.
    CircleGrow,
    /// `sparks_add_circle`: a burst of sparks.
    Spark,
}

/// One live telegraph. `age`/`ttl` let the renderer fade or scale it.
#[derive(Debug, Clone, Copy)]
pub struct Effect {
    pub x: i32,
    pub y: i32,
    pub kind: EffectKind,
    pub age: u16,
    pub ttl: u16,
}

/// Collection of live telegraphs, owned by the sim and drawn by the renderer.
pub struct EffectPool {
    pub effects: Vec<Effect>,
}

/// Frames each kind of telegraph lives.
pub open spec fn ttl_of(kind: EffectKind) -> u16 {
    match kind {
        EffectKind::Gather => 48,
        EffectKind::CircleShrink => 32,
        EffectKind::CircleGrow => 32,
        EffectKind::Spark => 24,
    }
}

/// A fresh telegraph.
pub open spec fn new_effect(x: i32, y: i32, kind: EffectKind) -> Effect {
    Effect { x, y, kind, age: 0, ttl: ttl_of(kind) }
}

/// A telegraph one frame older.
pub open spec fn aged(e: Effect) -> Effect {
    Effect { age: if e.age == u16::MAX { u16::MAX } else { (e.age + 1) as u16 }, ..e }
}

/// The telegraphs left after one frame: all aged, the expired ones dropped.
pub open spec fn effects_after(es: Seq<Effect>) -> Seq<Effect> {
    es.map_values(|e: Effect| aged(e)).filter(|e: Effect| e.age < e.ttl)
}

impl EffectPool {
    pub fn new() -> (r: Self)
        ensures
            r.effects@.len() == 0,
    {
        EffectPool { effects: Vec::new() }
    }

    fn add(&mut self, x: i32, y: i32, kind: EffectKind, ttl: u16)
        requires
            ttl == ttl_of(kind),
        ensures
            final(self).effects@ == old(self).effects@.push(new_effect(x, y, kind)),
    {
        self.effects.push(Effect { x, y, kind, age: 0, ttl });
    }

    /// `gather_add` / `gather_add_only` telegraph.
    pub fn gather(&mut self, x: i32, y: i32)
        ensures
            final(self).effects@ == old(self).effects@.push(new_effect(x, y, EffectKind::Gather)),
    {
        self.add(x, y, EffectKind::Gather, 48);
    }

    /// `circles_add_shrinking`.
    pub fn circle_shrink(&mut self, x: i32, y: i32)
        ensures
            final(self).effects@ == old(self).effects@.push(new_effect(x, y, EffectKind::CircleShrink)),
    {
        self.add(x, y, EffectKind::CircleShrink, 32);
    }

    /// `circles_add_growing`.
    pub fn circle_grow(&mut self, x: i32, y: i32)
        ensures
            final(self).effects@ == old(self).effects@.push(new_effect(x, y, EffectKind::CircleGrow)),
    {
        self.add(x, y, EffectKind::CircleGrow, 32);
    }

    /// `sparks_add_circle`.
    pub fn spark(&mut self, x: i32, y: i32)
        ensures
            final(self).effects@ == old(self).effects@.push(new_effect(x, y, EffectKind::Spark)),
    {
        self.add(x, y, EffectKind::Spark, 24);
    }

    /// Age every telegraph and drop expired ones, keeping the order.
    pub fn update(&mut self)
        ensures
            final(self).effects@ == effects_after(old(self).effects@),
    {
        let ghost old_es = self.effects@;
        let mut kept: Vec<Effect> = Vec::new();
        let n = self.effects.len();
        let mut i: usize = 0;
        proof {
            reveal(Seq::filter);
            assert(old_es.take(0).map_values(|e: Effect| aged(e)) =~= Seq::<Effect>::empty());
        }
        while i < n
            invariant
                i <= n,
                n == old_es.len(),
                self.effects@ == old_es,
                kept@ == old_es.take(i as int).map_values(|e: Effect| aged(e)).filter(|e: Effect| e.age < e.ttl),
            decreases n - i,
        {
            let e = self.effects[i];
            let e2 = Effect { age: e.age.saturating_add(1), ..e };
            assert(e2 == aged(e));
            proof {
                let m = old_es.take(i as int).map_values(|e: Effect| aged(e));
                let m1 = old_es.take(i + 1).map_values(|e: Effect| aged(e));
                assert(m1 =~= m.push(aged(e)));
                reveal(Seq::filter);
                assert(m.push(aged(e)).drop_last() =~= m);
            }
            if e2.age < e2.ttl {
                kept.push(e2);
            }
            i = i + 1;
        }
        assert(old_es.take(n as int) =~= old_es);
        assert(old_es.take(0).map_values(|e: Effect| aged(e)) =~= Seq::<Effect>::empty());
        self.effects = kept;
    }
}

} // verus!
