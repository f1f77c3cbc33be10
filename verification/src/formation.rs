//! Formations: which enemy type fills each slot of a formation, how a wave
//! table entry names a formation, and the order in which a formation's
//! slots are spawned.

use vstd::prelude::*;
use crate::content::{Content, FormationSpec, DetailedFormation, wave, wave_def};
use crate::enemy::{EnemyType, enemy_key};
use crate::text::str_eq;
use crate::rng::thread_random_below;

verus! {

/// A formation and its size (spacing is kept by the caller).
#[derive(Clone, Copy, Debug, PartialEq, Eq, Structural)]
pub enum FormationType {
    Random,
    Vee { count: u32 },
    Line { count: u32 },
    Circle { count: u32 },
    Escort { leader_type: EnemyType, follower_count: u32 },
    Grid { rows: u32, cols: u32 },
    Chaos,
}

/// The formation a table entry names: a known name gets the standard size,
/// an unknown one is random placement; an escort whose leader is not a
/// known enemy is led by a bomber.
pub open spec fn from_spec_spec(s: FormationSpec) -> FormationType {
    match s {
        FormationSpec::Simple(name) => if name@ == "vee"@ {
            FormationType::Vee { count: 5 }
        } else if name@ == "line"@ {
            FormationType::Line { count: 6 }
        } else if name@ == "circle"@ {
            FormationType::Circle { count: 8 }
        } else if name@ == "escort"@ {
            FormationType::Escort { leader_type: EnemyType::Bomber, follower_count: 4 }
        } else if name@ == "grid"@ {
            FormationType::Grid { rows: 3, cols: 5 }
        } else if name@ == "chaos"@ {
            FormationType::Chaos
        } else {
            FormationType::Random
        },
        FormationSpec::Detailed(d) => match d {
            DetailedFormation::Vee { count } => FormationType::Vee { count },
            DetailedFormation::Line { count } => FormationType::Line { count },
            DetailedFormation::Circle { count } => FormationType::Circle { count },
            DetailedFormation::Escort { leader, followers } => FormationType::Escort {
                leader_type: if exists|t: EnemyType| leader@ == enemy_key(t) {
                    choose|t: EnemyType| leader@ == enemy_key(t)
                } else {
                    EnemyType::Bomber
                },
                follower_count: followers,
            },
            DetailedFormation::Grid { rows, cols } => FormationType::Grid { rows, cols },
            DetailedFormation::Chaos => FormationType::Chaos,
        },
    }
}

/// The type of slot `i` of a vee: the tip row fighters, the next row
/// interceptors, the rest scouts.
pub open spec fn vee_slot(i: int) -> EnemyType {
    if i / 2 == 0 {
        EnemyType::Fighter
    } else if i / 2 <= 1 {
        EnemyType::Interceptor
    } else {
        EnemyType::Scout
    }
}

/// The type of slot `i` of a line: bombers every third slot, fighters on the
/// other even slots, scouts elsewhere.
pub open spec fn line_slot(i: int) -> EnemyType {
    if i % 3 == 0 {
        EnemyType::Bomber
    } else if i % 2 == 0 {
        EnemyType::Fighter
    } else {
        EnemyType::Scout
    }
}

/// The type of slot `i` of a circle: interceptor, fighter, bomber, scout,
/// repeating.
pub open spec fn circle_slot(i: int) -> EnemyType {
    if i % 4 == 0 {
        EnemyType::Interceptor
    } else if i % 4 == 1 {
        EnemyType::Fighter
    } else if i % 4 == 2 {
        EnemyType::Bomber
    } else {
        EnemyType::Scout
    }
}

/// The type of a grid row: bombers first, fighters second, scouts after.
pub open spec fn grid_row_type(row: int) -> EnemyType {
    if row == 0 {
        EnemyType::Bomber
    } else if row == 1 {
        EnemyType::Fighter
    } else {
        EnemyType::Scout
    }
}

/// The type of slot `i` of a grid with `cols` columns, filled row by row.
pub open spec fn grid_slot(i: int, cols: int) -> EnemyType {
    grid_row_type(i / cols)
}

/// The enemy types of a formation's slots, in spawn order.
pub open spec fn slots_spec(f: FormationType) -> Seq<EnemyType> {
    match f {
        FormationType::Random => seq![],
        FormationType::Vee { count } => Seq::new(count as nat, |i: int| vee_slot(i)),
        FormationType::Line { count } => Seq::new(count as nat, |i: int| line_slot(i)),
        FormationType::Circle { count } => Seq::new(count as nat, |i: int| circle_slot(i)),
        FormationType::Escort { leader_type, follower_count } => seq![leader_type]
            + Seq::new(follower_count as nat, |i: int| EnemyType::Fighter),
        FormationType::Grid { rows, cols } => Seq::new(
            (rows * cols) as nat,
            |i: int| grid_slot(i, cols as int),
        ),
        FormationType::Chaos => seq![],
    }
}

/// The name a wave table uses for each kind of formation.
pub open spec fn kind_word(d: DetailedFormation) -> Seq<char> {
    match d {
        DetailedFormation::Vee { .. } => "vee"@,
        DetailedFormation::Line { .. } => "line"@,
        DetailedFormation::Circle { .. } => "circle"@,
        DetailedFormation::Escort { .. } => "escort"@,
        DetailedFormation::Grid { .. } => "grid"@,
        DetailedFormation::Chaos => "chaos"@,
    }
}

/// A formation named by its kind alone is of that kind, at its standard
/// size: between five and fifteen enemies, the grid the largest, and an
/// escort led by a bomber.
pub proof fn lemma_named_formations(d: DetailedFormation, name: String)
    requires
        name@ == kind_word(d),
    ensures
        same_kind(d, from_spec_spec(FormationSpec::Simple(name))),
        !(d is Chaos) ==> 5 <= slots_spec(from_spec_spec(FormationSpec::Simple(name))).len() <= 15,
        slots_spec(from_spec_spec(FormationSpec::Simple(name))).len() <= slots_spec(
            FormationType::Grid { rows: 3, cols: 5 },
        ).len(),
        d is Escort ==> (from_spec_spec(FormationSpec::Simple(name)) matches FormationType::Escort {
            leader_type,
            ..
        } && leader_type == EnemyType::Bomber),
{
    reveal_strlit("vee");
    assert("vee"@.len() == 3 && "vee"@[0] == 'v');
    reveal_strlit("line");
    assert("line"@.len() == 4 && "line"@[0] == 'l');
    reveal_strlit("circle");
    assert("circle"@.len() == 6 && "circle"@[0] == 'c' && "circle"@[1] == 'i');
    reveal_strlit("escort");
    assert("escort"@.len() == 6 && "escort"@[0] == 'e');
    reveal_strlit("grid");
    assert("grid"@.len() == 4 && "grid"@[0] == 'g');
    reveal_strlit("chaos");
    assert("chaos"@.len() == 5 && "chaos"@[0] == 'c' && "chaos"@[1] == 'h');
    assert((3u32 * 5u32) as nat == 15);
}

/// How many enemies a spelled-out formation asks for.
pub open spec fn asked_enemies(d: DetailedFormation) -> int {
    match d {
        DetailedFormation::Vee { count } => count as int,
        DetailedFormation::Line { count } => count as int,
        DetailedFormation::Circle { count } => count as int,
        DetailedFormation::Escort { followers, .. } => followers + 1,
        DetailedFormation::Grid { rows, cols } => rows * cols,
        DetailedFormation::Chaos => 0,
    }
}

/// Whether a formation is of the kind a spelled-out entry names.
pub open spec fn same_kind(d: DetailedFormation, f: FormationType) -> bool {
    match d {
        DetailedFormation::Vee { .. } => f is Vee,
        DetailedFormation::Line { .. } => f is Line,
        DetailedFormation::Circle { .. } => f is Circle,
        DetailedFormation::Escort { .. } => f is Escort,
        DetailedFormation::Grid { .. } => f is Grid,
        DetailedFormation::Chaos => f is Chaos,
    }
}

/// A spelled-out formation keeps what the wave table writes: it is of the
/// kind named, sends exactly as many enemies as asked for, an escort keeps
/// its followers, and a grid keeps its shape (its first row, `cols` slots
/// wide, is all bombers and the next slot starts the second row).
pub proof fn lemma_detailed_formations_keep_their_numbers(d: DetailedFormation)
    ensures
        same_kind(d, from_spec_spec(FormationSpec::Detailed(d))),
        slots_spec(from_spec_spec(FormationSpec::Detailed(d))).len() == asked_enemies(d),
        d matches DetailedFormation::Escort { followers, .. } ==> (from_spec_spec(
            FormationSpec::Detailed(d),
        ) matches FormationType::Escort { follower_count, .. } && follower_count == followers),
        d matches DetailedFormation::Grid { rows, cols } ==> {
            let sl = slots_spec(from_spec_spec(FormationSpec::Detailed(d)));
            &&& forall|i: int| 0 <= i < cols && rows > 0 ==> sl[i] == EnemyType::Bomber
            &&& rows > 1 && cols > 0 ==> sl[cols as int] == EnemyType::Fighter
        },
{
    if let DetailedFormation::Grid { rows, cols } = d {
        let sl = slots_spec(from_spec_spec(FormationSpec::Detailed(d)));
        assert forall|i: int| 0 <= i < cols && rows > 0 implies sl[i] == EnemyType::Bomber by {
            assert(i < rows * cols) by (nonlinear_arith)
                requires
                    0 <= i < cols,
                    rows > 0,
            ;
            assert(i / (cols as int) == 0) by (nonlinear_arith)
                requires
                    0 <= i < cols,
            ;
        }
        if rows > 1 && cols > 0 {
            assert(cols < rows * cols) by (nonlinear_arith)
                requires
                    rows > 1,
                    cols > 0,
            ;
            assert((cols as int) / (cols as int) == 1) by (nonlinear_arith)
                requires
                    cols > 0,
            ;
        }
    }
}

impl FormationType {
    /// The formation a wave table entry names.
    pub fn from_spec(spec: &FormationSpec) -> (f: FormationType)
        ensures
            f == from_spec_spec(*spec),
    {
        match spec {
            FormationSpec::Simple(name) => {
                let n = name.as_str();
                if str_eq(n, "vee") {
                    FormationType::Vee { count: 5 }
                } else if str_eq(n, "line") {
                    FormationType::Line { count: 6 }
                } else if str_eq(n, "circle") {
                    FormationType::Circle { count: 8 }
                } else if str_eq(n, "escort") {
                    FormationType::Escort { leader_type: EnemyType::Bomber, follower_count: 4 }
                } else if str_eq(n, "grid") {
                    FormationType::Grid { rows: 3, cols: 5 }
                } else if str_eq(n, "chaos") {
                    FormationType::Chaos
                } else {
                    FormationType::Random
                }
            },
            FormationSpec::Detailed(d) => match d {
                DetailedFormation::Vee { count } => FormationType::Vee { count: *count },
                DetailedFormation::Line { count } => FormationType::Line { count: *count },
                DetailedFormation::Circle { count } => FormationType::Circle { count: *count },
                DetailedFormation::Escort { leader, followers } => {
                    let leader_type = match EnemyType::from_key(leader.as_str()) {
                        Some(t) => {
                            proof {
                                let u = choose|u: EnemyType| leader@ == enemy_key(u);
                                lemma_enemy_keys_distinct(t, u);
                            }
                            t
                        },
                        None => EnemyType::Bomber,
                    };
                    FormationType::Escort { leader_type, follower_count: *followers }
                },
                DetailedFormation::Grid { rows, cols } => FormationType::Grid {
                    rows: *rows,
                    cols: *cols,
                },
                DetailedFormation::Chaos => FormationType::Chaos,
            },
        }
    }

    /// The standard size of this kind of formation.
    pub fn default_params(&self) -> (f: FormationType)
        ensures
            f == match *self {
                FormationType::Random => FormationType::Random,
                FormationType::Vee { .. } => FormationType::Vee { count: 5 },
                FormationType::Line { .. } => FormationType::Line { count: 6 },
                FormationType::Circle { .. } => FormationType::Circle { count: 8 },
                FormationType::Escort { .. } => FormationType::Escort {
                    leader_type: EnemyType::Bomber,
                    follower_count: 4,
                },
                FormationType::Grid { .. } => FormationType::Grid { rows: 3, cols: 5 },
                FormationType::Chaos => FormationType::Chaos,
            },
    {
        match self {
            FormationType::Random => FormationType::Random,
            FormationType::Vee { .. } => FormationType::Vee { count: 5 },
            FormationType::Line { .. } => FormationType::Line { count: 6 },
            FormationType::Circle { .. } => FormationType::Circle { count: 8 },
            FormationType::Escort { .. } => FormationType::Escort {
                leader_type: EnemyType::Bomber,
                follower_count: 4,
            },
            FormationType::Grid { .. } => FormationType::Grid { rows: 3, cols: 5 },
            FormationType::Chaos => FormationType::Chaos,
        }
    }

    /// The enemy types of the formation's slots, in spawn order.
    pub fn slot_types(&self) -> (v: Vec<EnemyType>)
        ensures
            v@ == slots_spec(*self),
    {
        let mut v: Vec<EnemyType> = Vec::new();
        match *self {
            FormationType::Vee { count } => {
                let mut i: u32 = 0;
                while i < count
                    invariant
                        i <= count,
                        v@ == Seq::new(i as nat, |j: int| vee_slot(j)),
                    decreases count - i,
                {
                    let row = i / 2;
                    v.push(
                        if row == 0 {
                            EnemyType::Fighter
                        } else if row <= 1 {
                            EnemyType::Interceptor
                        } else {
                            EnemyType::Scout
                        },
                    );
                    i = i + 1;
                    assert(v@ =~= Seq::new(i as nat, |j: int| vee_slot(j)));
                }
            },
            FormationType::Line { count } => {
                let mut i: u32 = 0;
                while i < count
                    invariant
                        i <= count,
                        v@ == Seq::new(i as nat, |j: int| line_slot(j)),
                    decreases count - i,
                {
                    v.push(
                        if i % 3 == 0 {
                            EnemyType::Bomber
                        } else if i % 2 == 0 {
                            EnemyType::Fighter
                        } else {
                            EnemyType::Scout
                        },
                    );
                    i = i + 1;
                    assert(v@ =~= Seq::new(i as nat, |j: int| line_slot(j)));
                }
            },
            FormationType::Circle { count } => {
                let mut i: u32 = 0;
                while i < count
                    invariant
                        i <= count,
                        v@ == Seq::new(i as nat, |j: int| circle_slot(j)),
                    decreases count - i,
                {
                    v.push(
                        if i % 4 == 0 {
                            EnemyType::Interceptor
                        } else if i % 4 == 1 {
                            EnemyType::Fighter
                        } else if i % 4 == 2 {
                            EnemyType::Bomber
                        } else {
                            EnemyType::Scout
                        },
                    );
                    i = i + 1;
                    assert(v@ =~= Seq::new(i as nat, |j: int| circle_slot(j)));
                }
            },
            FormationType::Escort { leader_type, follower_count } => {
                v.push(leader_type);
                let mut i: u32 = 0;
                while i < follower_count
                    invariant
                        i <= follower_count,
                        v@ == seq![leader_type] + Seq::new(i as nat, |j: int| EnemyType::Fighter),
                    decreases follower_count - i,
                {
                    v.push(EnemyType::Fighter);
                    i = i + 1;
                    assert(v@ =~= seq![leader_type] + Seq::new(
                        i as nat,
                        |j: int| EnemyType::Fighter,
                    ));
                }
            },
            FormationType::Grid { rows, cols } => {
                let mut row: u32 = 0;
                while row < rows
                    invariant
                        row <= rows,
                        v@ == Seq::new(
                            (row * cols) as nat,
                            |i: int| grid_slot(i, cols as int),
                        ),
                    decreases rows - row,
                {
                    let t = if row == 0 {
                        EnemyType::Bomber
                    } else if row == 1 {
                        EnemyType::Fighter
                    } else {
                        EnemyType::Scout
                    };
                    let mut col: u32 = 0;
                    let ghost base = v@;
                    while col < cols
                        invariant
                            col <= cols,
                            row < rows,
                            t == grid_row_type(row as int),
                            base == Seq::new(
                                (row * cols) as nat,
                                |i: int| grid_slot(i, cols as int),
                            ),
                            v@ == base + Seq::new(col as nat, |i: int| t),
                        decreases cols - col,
                    {
                        v.push(t);
                        col = col + 1;
                        assert(v@ =~= base + Seq::new(col as nat, |i: int| t));
                    }
                    proof {
                        lemma_grid_rows(row as int, cols as int);
                    }
                    row = row + 1;
                }
            },
            FormationType::Random => {},
            FormationType::Chaos => {},
        }
        proof {
            if let FormationType::Random = *self {
                assert(v@ =~= slots_spec(*self));
            }
            if let FormationType::Chaos = *self {
                assert(v@ =~= slots_spec(*self));
            }
        }
        v
    }
}

proof fn lemma_grid_rows(row: int, cols: int)
    requires
        0 <= row,
        0 <= cols,
    ensures
        Seq::new((row * cols) as nat, |i: int| grid_slot(i, cols)) + Seq::new(
            cols as nat,
            |i: int| grid_row_type(row),
        ) =~= Seq::new(((row + 1) * cols) as nat, |i: int| grid_slot(i, cols)),
{
    assert((row + 1) * cols == row * cols + cols) by (nonlinear_arith);
    assert(row * cols >= 0) by (nonlinear_arith)
        requires
            0 <= row,
            0 <= cols,
    ;
    assert forall|i: int| row * cols <= i < (row + 1) * cols implies #[trigger] grid_slot(i, cols) == grid_row_type(row) by {
        assert(i / cols == row) by (nonlinear_arith)
            requires
                row * cols <= i < row * cols + cols,
                0 <= row,
                0 < cols,
        ;
    }
}

proof fn lemma_enemy_keys_distinct(t: EnemyType, u: EnemyType)
    requires
        enemy_key(t) == enemy_key(u),
    ensures
        t == u,
{
    reveal_strlit("scout");
    reveal_strlit("fighter");
    reveal_strlit("bomber");
    reveal_strlit("interceptor");
    reveal_strlit("elite");
    assert(enemy_key(t)[0] == enemy_key(u)[0]);
    match t {
        EnemyType::Scout => assert(enemy_key(t)[0] == 's'),
        EnemyType::Fighter => assert(enemy_key(t)[0] == 'f'),
        EnemyType::Bomber => assert(enemy_key(t)[0] == 'b'),
        EnemyType::Interceptor => assert(enemy_key(t)[0] == 'i'),
        EnemyType::Elite => assert(enemy_key(t)[0] == 'e'),
    }
    match u {
        EnemyType::Scout => assert(enemy_key(u)[0] == 's'),
        EnemyType::Fighter => assert(enemy_key(u)[0] == 'f'),
        EnemyType::Bomber => assert(enemy_key(u)[0] == 'b'),
        EnemyType::Interceptor => assert(enemy_key(u)[0] == 'i'),
        EnemyType::Elite => assert(enemy_key(u)[0] == 'e'),
    }
}

/// The formations the wave table lists for `wave_number`.
pub fn get_wave_formations(c: &Content, wave_number: u32) -> (fs: Vec<FormationType>)
    ensures
        fs@.len() == wave_def(*c, wave_number as nat).formations@.len(),
        forall|i: int|
            0 <= i < fs@.len() ==> fs@[i] == from_spec_spec(
                (#[trigger] wave_def(*c, wave_number as nat).formations@[i]),
            ),
{
    let w = wave(c, wave_number);
    let mut fs: Vec<FormationType> = Vec::new();
    let mut i: usize = 0;
    while i < w.formations.len()
        invariant
            i <= w.formations@.len(),
            fs@.len() == i,
            forall|j: int| 0 <= j < i ==> fs@[j] == from_spec_spec(#[trigger] w.formations@[j]),
        decreases w.formations@.len() - i,
    {
        fs.push(FormationType::from_spec(&w.formations[i]));
        i = i + 1;
    }
    fs
}

/// One of `formations` taken at random; random placement when there is none.
pub fn create_random_formation(formations: &Vec<FormationType>) -> (f: FormationType)
    ensures
        formations@.len() == 0 ==> f == FormationType::Random,
        formations@.len() > 0 ==> formations@.contains(f),
{
    if formations.len() == 0 {
        return FormationType::Random;
    }
    let n: u32 = if formations.len() <= u32::MAX as usize {
        formations.len() as u32
    } else {
        u32::MAX
    };
    let i = thread_random_below(n);
    let f = formations[i as usize];
    assert(formations@[i as int] == f);
    f
}

/// Spawns a formation slot by slot.
pub struct FormationManager {
    pub is_active: bool,
    pub formation_type: Option<FormationType>,
    pub enemies_to_spawn: Vec<EnemyType>,
    pub current_index: usize,
}

/// Slots spawned in one frame, as a range of slot indices, and whether the
/// formation is fully spawned.
#[derive(Clone, Copy, Debug, PartialEq, Eq, Structural)]
pub struct FormationTick {
    pub spawn_from: usize,
    pub spawn_to: usize,
    pub done: bool,
}

impl FormationManager {
    pub fn new() -> (m: FormationManager)
        ensures
            !m.is_active,
            m.formation_type is None,
            m.enemies_to_spawn@.len() == 0,
            m.current_index == 0,
    {
        FormationManager {
            is_active: false,
            formation_type: None,
            enemies_to_spawn: Vec::new(),
            current_index: 0,
        }
    }

    /// Starts spawning `formation_type` from its first slot.
    pub fn start_formation(&mut self, formation_type: FormationType)
        ensures
            final(self).is_active,
            final(self).formation_type == Some(formation_type),
            final(self).enemies_to_spawn@ == slots_spec(formation_type),
            final(self).current_index == 0,
    {
        self.formation_type = Some(formation_type);
        self.is_active = true;
        self.current_index = 0;
        self.enemies_to_spawn = formation_type.slot_types();
    }

    /// One frame: once the spawn timer is `ready`, every slot not yet
    /// spawned is spawned at once. Returns the slots spawned and whether the
    /// formation is done (an inactive or empty formation is done).
    pub fn update(&mut self, ready: bool) -> (t: FormationTick)
        requires
            old(self).current_index <= old(self).enemies_to_spawn@.len(),
        ensures
            final(self).enemies_to_spawn@ == old(self).enemies_to_spawn@,
            final(self).formation_type == old(self).formation_type,
            final(self).current_index <= final(self).enemies_to_spawn@.len(),
            !old(self).is_active || old(self).enemies_to_spawn@.len() == 0 ==> t.done && t.spawn_from
                == t.spawn_to && *final(self) == *old(self),
            old(self).is_active && old(self).enemies_to_spawn@.len() > 0 ==> {
                &&& t.spawn_from == old(self).current_index
                &&& t.spawn_to == if ready {
                    old(self).enemies_to_spawn@.len() as usize
                } else {
                    old(self).current_index
                }
                &&& final(self).current_index == t.spawn_to
                &&& t.done == (t.spawn_to >= old(self).enemies_to_spawn@.len())
                &&& final(self).is_active == !t.done
            },
    {
        if !self.is_active || self.enemies_to_spawn.len() == 0 {
            return FormationTick { spawn_from: self.current_index, spawn_to: self.current_index, done: true };
        }
        let from = self.current_index;
        if ready {
            self.current_index = self.enemies_to_spawn.len();
        }
        if self.current_index >= self.enemies_to_spawn.len() {
            self.is_active = false;
            return FormationTick { spawn_from: from, spawn_to: self.current_index, done: true };
        }
        FormationTick { spawn_from: from, spawn_to: self.current_index, done: false }
    }
}

} // verus!
