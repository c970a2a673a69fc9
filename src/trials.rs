use vstd::prelude::*;
use vstd::string::StringExecFns;

verus! {

/// A change of one in the time multiplier takes this many milliseconds.
pub const TIME_SCALE: u64 = 10_000_000;

/// Points awarded for each unit of vitality left at the end of a run.
pub const VITALITY_POINTS: u32 = 1000;

/// Milliseconds in one second of the reference duration.
pub const MS_PER_SECOND: u64 = 1000;

/// An additional objective of a trial and the points it adds to the score.
#[derive(PartialEq, Debug)]
pub struct Hardmode {
    name: String,
    additional_score: u32,
}

/// What a [`Hardmode`] holds, as mathematical values.
pub struct HardmodeView {
    pub name: Seq<char>,
    pub additional_score: nat,
}

impl View for Hardmode {
    type V = HardmodeView;

    closed spec fn view(&self) -> HardmodeView {
        HardmodeView { name: self.name@, additional_score: self.additional_score as nat }
    }
}

impl Hardmode {
    pub fn new(name: String, additional_score: u32) -> (r: Hardmode)
        ensures
            r@ == (HardmodeView { name: name@, additional_score: additional_score as nat }),
    {
        Hardmode { name, additional_score }
    }
}

impl Clone for Hardmode {
    fn clone(&self) -> (r: Hardmode)
        ensures
            r@ == self@,
    {
        Hardmode { name: self.name.clone(), additional_score: self.additional_score }
    }
}

/// The views of a list of hard modes.
pub open spec fn hardmode_views(v: Seq<Hardmode>) -> Seq<HardmodeView> {
    v.map_values(|h: Hardmode| h@)
}

/// Sum of the bonuses of a list of hard modes.
pub open spec fn hardmode_total(h: Seq<HardmodeView>) -> nat
    decreases h.len(),
{
    if h.len() == 0 {
        0
    } else {
        hardmode_total(h.drop_last()) + h.last().additional_score
    }
}

/// Points for `vitality` units of vitality.
pub open spec fn vitality_bonus(vitality: nat) -> nat {
    vitality * VITALITY_POINTS as nat
}

/// The score for a run worth `total` points at the reference duration `factor_ms`,
/// finished after `time` milliseconds: `total * (1 + (factor_ms - time) / TIME_SCALE)`,
/// truncated, and held to the range of a `u32`.
pub open spec fn score_of(total: nat, factor_ms: nat, time: nat) -> nat {
    let n = total * (TIME_SCALE as int + factor_ms - time);
    if n <= 0 {
        0
    } else if n / TIME_SCALE as int > u32::MAX as int {
        u32::MAX as nat
    } else {
        (n / TIME_SCALE as int) as nat
    }
}

/// The time in milliseconds at which a run worth `total` points (nonzero) scores
/// `target`: `factor_ms - TIME_SCALE * (target / total - 1)`, floored at zero,
/// truncated, and held to the range of a `u32`.
pub open spec fn time_of(total: nat, factor_ms: nat, target: nat) -> nat
    recommends
        total > 0,
{
    let n = total * (factor_ms + TIME_SCALE) - TIME_SCALE * target;
    if n <= 0 {
        0
    } else if n / total as int > u32::MAX as int {
        u32::MAX as nat
    } else {
        (n / total as int) as nat
    }
}

/// The names that are shown without the veteran suffix.
pub open spec fn is_exempt_name(name: Seq<char>) -> bool {
    name == "Aetherian Archive"@ || name == "Hel Ra Citadel"@ || name == "Sanctum Ophidia"@
}

/// A trial: its name, the score for a bare clear, the vitality it starts with,
/// its reference duration in seconds, and its hard modes.
#[derive(PartialEq, Debug)]
pub struct Trial {
    name: String,
    base_score: u32,
    max_vitality: u8,
    score_factor: u32,
    hardmodes: Vec<Hardmode>,
}

/// What a [`Trial`] holds, as mathematical values.
pub struct TrialView {
    pub name: Seq<char>,
    pub base_score: nat,
    pub max_vitality: nat,
    pub score_factor: nat,
    pub hardmodes: Seq<HardmodeView>,
}

impl TrialView {
    /// Sum of the bonuses of all hard modes.
    pub open spec fn hardmode_bonus(self) -> nat {
        hardmode_total(self.hardmodes)
    }

    /// The score of a clear before time and vitality are counted.
    pub open spec fn clear_score(self) -> nat {
        self.base_score + self.hardmode_bonus()
    }

    /// The clear score together with the bonus for `vitality` units of vitality.
    pub open spec fn total_with(self, vitality: nat) -> nat {
        self.clear_score() + vitality_bonus(vitality)
    }

    /// The reference duration in milliseconds.
    pub open spec fn factor_ms(self) -> nat {
        self.score_factor * MS_PER_SECOND as nat
    }

    /// The clear score fits in a `u32`.
    pub open spec fn wf(self) -> bool {
        self.clear_score() <= u32::MAX
    }

    pub open spec fn display_name(self) -> Seq<char> {
        if is_exempt_name(self.name) {
            self.name
        } else {
            self.name + " (VETERAN)"@
        }
    }

    pub open spec fn score(self, time: nat, vitality: nat) -> nat {
        score_of(self.total_with(vitality), self.factor_ms(), time)
    }
}

impl View for Trial {
    type V = TrialView;

    closed spec fn view(&self) -> TrialView {
        TrialView {
            name: self.name@,
            base_score: self.base_score as nat,
            max_vitality: self.max_vitality as nat,
            score_factor: self.score_factor as nat,
            hardmodes: hardmode_views(self.hardmodes@),
        }
    }
}

proof fn lemma_prefix_total_le(h: Seq<HardmodeView>, i: int)
    requires
        0 <= i <= h.len(),
    ensures
        hardmode_total(h.subrange(0, i)) <= hardmode_total(h),
    decreases h.len(),
{
    if i == h.len() {
        assert(h.subrange(0, i) =~= h);
    } else {
        assert(h.drop_last().subrange(0, i) =~= h.subrange(0, i));
        lemma_prefix_total_le(h.drop_last(), i);
    }
}

impl Trial {
    #[verifier::type_invariant]
    spec fn inv(self) -> bool {
        self@.wf()
    }

    pub fn new(
        name: String,
        base_score: u32,
        max_vitality: u8,
        score_factor: u32,
        hardmodes: Vec<Hardmode>,
    ) -> (r: Trial)
        requires
            base_score + hardmode_total(hardmode_views(hardmodes@)) <= u32::MAX,
        ensures
            r@ == (TrialView {
                name: name@,
                base_score: base_score as nat,
                max_vitality: max_vitality as nat,
                score_factor: score_factor as nat,
                hardmodes: hardmode_views(hardmodes@),
            }),
    {
        Trial { name, base_score, max_vitality, score_factor, hardmodes }
    }

    /// The name as shown: the raw name, with a veteran suffix on all but three trials.
    pub fn get_name(&self) -> (r: String)
        ensures
            r@ == self@.display_name(),
    {
        let archive = String::from_str("Aetherian Archive");
        let citadel = String::from_str("Hel Ra Citadel");
        let ophidia = String::from_str("Sanctum Ophidia");
        if self.name == archive || self.name == citadel || self.name == ophidia {
            self.name.clone()
        } else {
            self.name.clone().concat(" (VETERAN)")
        }
    }

    pub fn get_raw_name(&self) -> (r: String)
        ensures
            r@ == self@.name,
    {
        self.name.clone()
    }

    /// Sum of the bonuses of all hard modes.
    pub fn get_hardmode_bonus(&self) -> (r: u32)
        ensures
            r == self@.hardmode_bonus(),
    {
        proof {
            use_type_invariant(self);
        }
        let ghost h = self@.hardmodes;
        let mut total: u32 = 0;
        let mut i: usize = 0;
        while i < self.hardmodes.len()
            invariant
                i <= h.len(),
                h == self@.hardmodes,
                self@.wf(),
                total == hardmode_total(h.subrange(0, i as int)),
            decreases h.len() - i,
        {
            proof {
                assert(h.subrange(0, i + 1).drop_last() =~= h.subrange(0, i as int));
                lemma_prefix_total_le(h, i + 1);
            }
            total = total + self.hardmodes[i].additional_score;
            i = i + 1;
        }
        assert(h.subrange(0, i as int) =~= h);
        total
    }

    /// The score of a clear before time and vitality are counted.
    fn clear_score(&self) -> (r: u32)
        ensures
            r == self@.clear_score(),
    {
        proof {
            use_type_invariant(self);
        }
        self.base_score + self.get_hardmode_bonus()
    }

    /// The score for a run of `time` milliseconds with all vitality kept.
    pub fn calculate_score(&self, time: u32) -> (r: u32)
        ensures
            r == self@.score(time as nat, self@.max_vitality),
    {
        self.calculate_score_with_vitality(time, self.max_vitality)
    }

    /// The score for a run of `time` milliseconds that ends with `vitality` units
    /// of vitality.
    pub fn calculate_score_with_vitality(&self, time: u32, vitality: u8) -> (r: u32)
        ensures
            r == self@.score(time as nat, vitality as nat),
    {
        let total: u128 = self.clear_score() as u128
            + self.get_vitality_bonus_with_vitality(vitality) as u128;
        let scaled: u128 = TIME_SCALE as u128 + self.get_score_factor() as u128;
        if time as u128 >= scaled {
            proof {
                assert(total * (scaled - time) <= 0) by (nonlinear_arith)
                    requires
                        scaled - time <= 0,
                        total >= 0,
                ;
            }
            return 0;
        }
        let span: u128 = scaled - time as u128;
        assert(total * span <= 0x2_0000_0000 * 0x100_0000_0000_0000) by (nonlinear_arith)
            requires
                total <= 0x2_0000_0000,
                span <= 0x100_0000_0000_0000,
        ;
        let n: u128 = total * span;
        let q: u128 = n / TIME_SCALE as u128;
        if q > u32::MAX as u128 {
            u32::MAX
        } else {
            q as u32
        }
    }

    /// The time in milliseconds at which a run ending with `vitality` units of
    /// vitality scores `final_score`, floored at zero; `None` when the run is worth
    /// no points at all, so that no time can be derived.
    pub fn calculate_time_from_score(&self, final_score: u32, vitality: u8) -> (r: Option<u32>)
        ensures
            r == (if self@.total_with(vitality as nat) == 0 {
                None::<u32>
            } else {
                Some(time_of(self@.total_with(vitality as nat), self@.factor_ms(), final_score as nat) as u32)
            }),
    {
        let total: u128 = self.clear_score() as u128
            + self.get_vitality_bonus_with_vitality(vitality) as u128;
        if total == 0 {
            return None;
        }
        let scaled: u128 = TIME_SCALE as u128 + self.get_score_factor() as u128;
        assert(total * scaled <= 0x2_0000_0000 * 0x100_0000_0000_0000) by (nonlinear_arith)
            requires
                total <= 0x2_0000_0000,
                scaled <= 0x100_0000_0000_0000,
        ;
        let gain: u128 = total * scaled;
        let cost: u128 = TIME_SCALE as u128 * final_score as u128;
        if cost >= gain {
            return Some(0);
        }
        let q: u128 = (gain - cost) / total;
        if q > u32::MAX as u128 {
            Some(u32::MAX)
        } else {
            Some(q as u32)
        }
    }

    /// The vitality bonus when all vitality is kept.
    pub fn get_vitality_bonus(&self) -> (r: u32)
        ensures
            r == vitality_bonus(self@.max_vitality),
    {
        self.get_vitality_bonus_with_vitality(self.max_vitality)
    }

    /// The bonus for `vitality` units of vitality; no cap is applied.
    pub fn get_vitality_bonus_with_vitality(&self, vitality: u8) -> (r: u32)
        ensures
            r == vitality_bonus(vitality as nat),
    {
        vitality as u32 * VITALITY_POINTS
    }

    pub fn get_maximum_vitality(&self) -> (r: u8)
        ensures
            r == self@.max_vitality,
    {
        self.max_vitality
    }

    /// The reference duration in milliseconds.
    pub fn get_score_factor(&self) -> (r: u64)
        ensures
            r == self@.factor_ms(),
    {
        self.score_factor as u64 * MS_PER_SECOND
    }
}

impl Clone for Trial {
    fn clone(&self) -> (r: Trial)
        ensures
            r@ == self@,
    {
        proof {
            use_type_invariant(self);
        }
        let mut hardmodes: Vec<Hardmode> = Vec::new();
    assert(hardmode_views(hardmodes@) =~= Seq::<HardmodeView>::empty());
        let mut i: usize = 0;
        while i < self.hardmodes.len()
            invariant
                i <= self.hardmodes@.len(),
                hardmodes@.len() == i,
                forall|j: int| 0 <= j < i ==> hardmodes@[j]@ == self.hardmodes@[j]@,
            decreases self.hardmodes@.len() - i,
        {
            hardmodes.push(self.hardmodes[i].clone());
            i = i + 1;
        }
        assert(hardmode_views(hardmodes@) =~= self.hardmodes@.map_values(
            |h: Hardmode| h@,
        ));
        Trial {
            name: self.name.clone(),
            base_score: self.base_score,
            max_vitality: self.max_vitality,
            score_factor: self.score_factor,
            hardmodes,
        }
    }
}

/// A hard mode as mathematical values.
pub open spec fn tier(name: Seq<char>, additional_score: nat) -> HardmodeView {
    HardmodeView { name, additional_score }
}

/// A trial as mathematical values.
pub open spec fn entry(
    name: Seq<char>,
    base_score: nat,
    max_vitality: nat,
    score_factor: nat,
    hardmodes: Seq<HardmodeView>,
) -> TrialView {
    TrialView { name, base_score, max_vitality, score_factor, hardmodes }
}

/// The trials in the order in which they are offered.
pub open spec fn catalog() -> Seq<TrialView> {
    seq![
        entry("Aetherian Archive"@, 84300, 24, 900, seq![tier("HM"@, 40000)]),
        entry("Hel Ra Citadel"@, 93100, 24, 900, seq![tier("HM"@, 40000)]),
        entry("Sanctum Ophidia"@, 102700, 24, 1500, seq![tier("HM"@, 40000)]),
        entry("Maw of Lorkhaj"@, 68150, 36, 2700, seq![tier("HM"@, 40000)]),
        entry("Halls of Fabrication"@, 120100, 36, 2700, seq![tier("HM"@, 40000)]),
        entry("Asylum Sanctorium"@, 15000, 36, 1200, seq![tier("+1"@, 15000), tier("+2"@, 40000)]),
        entry("Cloudrest"@, 18000, 36, 1200, seq![tier("+1"@, 14250), tier("+2"@, 14250), tier("+3"@, 39250), tier("+3 & Trash"@, 2250)]),
        entry("Sunspire"@, 87250, 36, 1800, seq![tier("Yolnahkriin HM"@, 40000), tier("Lokkestiiz HM"@, 40000), tier("Nahviintaas HM"@, 40000)]),
        entry("Kyne's Aegis"@, 85950, 36, 1200, seq![tier("Yandir HM"@, 40000), tier("Vrol HM"@, 40000), tier("Falgravn HM"@, 40000)]),
        entry("Rockgrove"@, 112200, 36, 2700, seq![tier("Oaxiltso HM"@, 40000), tier("Bahsei HM"@, 40000), tier("Xalvakka HM"@, 40000)]),
        entry("Dreadsail Reef"@, 145850, 36, 2700, seq![tier("Twins HM"@, 40000), tier("Reef HM"@, 40000), tier("Taleria HM"@, 40000)]),
        entry("Sanity's Edge"@, 85200, 36, 2700, seq![tier("Yaseyla HM"@, 40000), tier("Chimera HM"@, 40000), tier("Ansuul HM"@, 40000)]),
        entry("Lucent Citadel"@, 72850, 36, 2700, seq![tier("Twins HM"@, 40000), tier("Orphic HM"@, 40000), tier("Xoryn HM"@, 40000)]),
        entry("Ossein Cage"@, 108550, 36, 2700, seq![tier("Shapers HM"@, 40000), tier("Twins HM"@, 40000), tier("Kazpian HM"@, 40000)]),
        entry("Dragonstar Arena"@, 20000, 24, 3600, seq![]),
        entry("Maelstrom Arena"@, 426000, 15, 5400, seq![]),
        entry("Blackrose Prison"@, 75000, 24, 2400, seq![]),
        entry("Vateshran Hollows"@, 205550, 15, 5400, seq![]),
    ]
}

fn push_hardmode(hardmodes: &mut Vec<Hardmode>, name: &str, additional_score: u32)
    ensures
        hardmode_views(final(hardmodes)@) == hardmode_views(old(hardmodes)@).push(
            tier(name@, additional_score as nat),
        ),
        hardmode_total(hardmode_views(final(hardmodes)@)) == hardmode_total(
            hardmode_views(old(hardmodes)@),
        ) + additional_score,
{
    hardmodes.push(Hardmode::new(String::from_str(name), additional_score));
    proof {
        let views = hardmode_views(hardmodes@);
        assert(views =~= hardmode_views(old(hardmodes)@).push(tier(name@, additional_score as nat)));
        assert(views.drop_last() =~= hardmode_views(old(hardmodes)@));
    }
}

/// Builds the catalog of trials, in the order in which they are offered.
pub fn create_trial_structs() -> (r: Vec<Trial>)
    ensures
        r@.map_values(|t: Trial| t@) == catalog(),
{
    let mut trials: Vec<Trial> = Vec::new();
    let mut hardmodes: Vec<Hardmode> = Vec::new();
    assert(hardmode_views(hardmodes@) =~= Seq::<HardmodeView>::empty());
    push_hardmode(&mut hardmodes, "HM", 40000);
    trials.push(Trial::new(String::from_str("Aetherian Archive"), 84300, 24, 900, hardmodes));
    assert(trials@[0]@.hardmodes =~= catalog()[0].hardmodes);
    assert(trials@.len() == 1 && trials@[0]@ == catalog()[0]);
    let mut hardmodes: Vec<Hardmode> = Vec::new();
    assert(hardmode_views(hardmodes@) =~= Seq::<HardmodeView>::empty());
    push_hardmode(&mut hardmodes, "HM", 40000);
    trials.push(Trial::new(String::from_str("Hel Ra Citadel"), 93100, 24, 900, hardmodes));
    assert(trials@[1]@.hardmodes =~= catalog()[1].hardmodes);
    assert(trials@.len() == 2 && trials@[1]@ == catalog()[1]);
    let mut hardmodes: Vec<Hardmode> = Vec::new();
    assert(hardmode_views(hardmodes@) =~= Seq::<HardmodeView>::empty());
    push_hardmode(&mut hardmodes, "HM", 40000);
    trials.push(Trial::new(String::from_str("Sanctum Ophidia"), 102700, 24, 1500, hardmodes));
    assert(trials@[2]@.hardmodes =~= catalog()[2].hardmodes);
    assert(trials@.len() == 3 && trials@[2]@ == catalog()[2]);
    let mut hardmodes: Vec<Hardmode> = Vec::new();
    assert(hardmode_views(hardmodes@) =~= Seq::<HardmodeView>::empty());
    push_hardmode(&mut hardmodes, "HM", 40000);
    trials.push(Trial::new(String::from_str("Maw of Lorkhaj"), 68150, 36, 2700, hardmodes));
    assert(trials@[3]@.hardmodes =~= catalog()[3].hardmodes);
    assert(trials@.len() == 4 && trials@[3]@ == catalog()[3]);
    let mut hardmodes: Vec<Hardmode> = Vec::new();
    assert(hardmode_views(hardmodes@) =~= Seq::<HardmodeView>::empty());
    push_hardmode(&mut hardmodes, "HM", 40000);
    trials.push(Trial::new(String::from_str("Halls of Fabrication"), 120100, 36, 2700, hardmodes));
    assert(trials@[4]@.hardmodes =~= catalog()[4].hardmodes);
    assert(trials@.len() == 5 && trials@[4]@ == catalog()[4]);
    let mut hardmodes: Vec<Hardmode> = Vec::new();
    assert(hardmode_views(hardmodes@) =~= Seq::<HardmodeView>::empty());
    push_hardmode(&mut hardmodes, "+1", 15000);
    push_hardmode(&mut hardmodes, "+2", 40000);
    trials.push(Trial::new(String::from_str("Asylum Sanctorium"), 15000, 36, 1200, hardmodes));
    assert(trials@[5]@.hardmodes =~= catalog()[5].hardmodes);
    assert(trials@.len() == 6 && trials@[5]@ == catalog()[5]);
    let mut hardmodes: Vec<Hardmode> = Vec::new();
    assert(hardmode_views(hardmodes@) =~= Seq::<HardmodeView>::empty());
    push_hardmode(&mut hardmodes, "+1", 14250);
    push_hardmode(&mut hardmodes, "+2", 14250);
    push_hardmode(&mut hardmodes, "+3", 39250);
    push_hardmode(&mut hardmodes, "+3 & Trash", 2250);
    trials.push(Trial::new(String::from_str("Cloudrest"), 18000, 36, 1200, hardmodes));
    assert(trials@[6]@.hardmodes =~= catalog()[6].hardmodes);
    assert(trials@.len() == 7 && trials@[6]@ == catalog()[6]);
    let mut hardmodes: Vec<Hardmode> = Vec::new();
    assert(hardmode_views(hardmodes@) =~= Seq::<HardmodeView>::empty());
    push_hardmode(&mut hardmodes, "Yolnahkriin HM", 40000);
    push_hardmode(&mut hardmodes, "Lokkestiiz HM", 40000);
    push_hardmode(&mut hardmodes, "Nahviintaas HM", 40000);
    trials.push(Trial::new(String::from_str("Sunspire"), 87250, 36, 1800, hardmodes));
    assert(trials@[7]@.hardmodes =~= catalog()[7].hardmodes);
    assert(trials@.len() == 8 && trials@[7]@ == catalog()[7]);
    let mut hardmodes: Vec<Hardmode> = Vec::new();
    assert(hardmode_views(hardmodes@) =~= Seq::<HardmodeView>::empty());
    push_hardmode(&mut hardmodes, "Yandir HM", 40000);
    push_hardmode(&mut hardmodes, "Vrol HM", 40000);
    push_hardmode(&mut hardmodes, "Falgravn HM", 40000);
    trials.push(Trial::new(String::from_str("Kyne's Aegis"), 85950, 36, 1200, hardmodes));
    assert(trials@[8]@.hardmodes =~= catalog()[8].hardmodes);
    assert(trials@.len() == 9 && trials@[8]@ == catalog()[8]);
    let mut hardmodes: Vec<Hardmode> = Vec::new();
    assert(hardmode_views(hardmodes@) =~= Seq::<HardmodeView>::empty());
    push_hardmode(&mut hardmodes, "Oaxiltso HM", 40000);
    push_hardmode(&mut hardmodes, "Bahsei HM", 40000);
    push_hardmode(&mut hardmodes, "Xalvakka HM", 40000);
    trials.push(Trial::new(String::from_str("Rockgrove"), 112200, 36, 2700, hardmodes));
    assert(trials@[9]@.hardmodes =~= catalog()[9].hardmodes);
    assert(trials@.len() == 10 && trials@[9]@ == catalog()[9]);
    let mut hardmodes: Vec<Hardmode> = Vec::new();
    assert(hardmode_views(hardmodes@) =~= Seq::<HardmodeView>::empty());
    push_hardmode(&mut hardmodes, "Twins HM", 40000);
    push_hardmode(&mut hardmodes, "Reef HM", 40000);
    push_hardmode(&mut hardmodes, "Taleria HM", 40000);
    trials.push(Trial::new(String::from_str("Dreadsail Reef"), 145850, 36, 2700, hardmodes));
    assert(trials@[10]@.hardmodes =~= catalog()[10].hardmodes);
    assert(trials@.len() == 11 && trials@[10]@ == catalog()[10]);
    let mut hardmodes: Vec<Hardmode> = Vec::new();
    assert(hardmode_views(hardmodes@) =~= Seq::<HardmodeView>::empty());
    push_hardmode(&mut hardmodes, "Yaseyla HM", 40000);
    push_hardmode(&mut hardmodes, "Chimera HM", 40000);
    push_hardmode(&mut hardmodes, "Ansuul HM", 40000);
    trials.push(Trial::new(String::from_str("Sanity's Edge"), 85200, 36, 2700, hardmodes));
    assert(trials@[11]@.hardmodes =~= catalog()[11].hardmodes);
    assert(trials@.len() == 12 && trials@[11]@ == catalog()[11]);
    let mut hardmodes: Vec<Hardmode> = Vec::new();
    assert(hardmode_views(hardmodes@) =~= Seq::<HardmodeView>::empty());
    push_hardmode(&mut hardmodes, "Twins HM", 40000);
    push_hardmode(&mut hardmodes, "Orphic HM", 40000);
    push_hardmode(&mut hardmodes, "Xoryn HM", 40000);
    trials.push(Trial::new(String::from_str("Lucent Citadel"), 72850, 36, 2700, hardmodes));
    assert(trials@[12]@.hardmodes =~= catalog()[12].hardmodes);
    assert(trials@.len() == 13 && trials@[12]@ == catalog()[12]);
    let mut hardmodes: Vec<Hardmode> = Vec::new();
    assert(hardmode_views(hardmodes@) =~= Seq::<HardmodeView>::empty());
    push_hardmode(&mut hardmodes, "Shapers HM", 40000);
    push_hardmode(&mut hardmodes, "Twins HM", 40000);
    push_hardmode(&mut hardmodes, "Kazpian HM", 40000);
    trials.push(Trial::new(String::from_str("Ossein Cage"), 108550, 36, 2700, hardmodes));
    assert(trials@[13]@.hardmodes =~= catalog()[13].hardmodes);
    assert(trials@.len() == 14 && trials@[13]@ == catalog()[13]);
    let mut hardmodes: Vec<Hardmode> = Vec::new();
    assert(hardmode_views(hardmodes@) =~= Seq::<HardmodeView>::empty());
    trials.push(Trial::new(String::from_str("Dragonstar Arena"), 20000, 24, 3600, hardmodes));
    assert(trials@[14]@.hardmodes =~= catalog()[14].hardmodes);
    assert(trials@.len() == 15 && trials@[14]@ == catalog()[14]);
    let mut hardmodes: Vec<Hardmode> = Vec::new();
    assert(hardmode_views(hardmodes@) =~= Seq::<HardmodeView>::empty());
    trials.push(Trial::new(String::from_str("Maelstrom Arena"), 426000, 15, 5400, hardmodes));
    assert(trials@[15]@.hardmodes =~= catalog()[15].hardmodes);
    assert(trials@.len() == 16 && trials@[15]@ == catalog()[15]);
    let mut hardmodes: Vec<Hardmode> = Vec::new();
    assert(hardmode_views(hardmodes@) =~= Seq::<HardmodeView>::empty());
    trials.push(Trial::new(String::from_str("Blackrose Prison"), 75000, 24, 2400, hardmodes));
    assert(trials@[16]@.hardmodes =~= catalog()[16].hardmodes);
    assert(trials@.len() == 17 && trials@[16]@ == catalog()[16]);
    let mut hardmodes: Vec<Hardmode> = Vec::new();
    assert(hardmode_views(hardmodes@) =~= Seq::<HardmodeView>::empty());
    trials.push(Trial::new(String::from_str("Vateshran Hollows"), 205550, 15, 5400, hardmodes));
    assert(trials@[17]@.hardmodes =~= catalog()[17].hardmodes);
    assert(trials@.len() == 18 && trials@[17]@ == catalog()[17]);
    assert(trials@.map_values(|t: Trial| t@) =~= catalog());
    trials
}

} // verus!
