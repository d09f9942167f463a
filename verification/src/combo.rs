//! The combo-pattern matcher: chains of edge-trigger watchers matched against
//! a rolling history of side-relative inputs, resolving one intent per frame.

use vstd::prelude::*;
use crate::character::CharacterAction;
use crate::input::ScreenSideAdjustedInput;

verus! {

/// Whether `input` holds the button that stands for `action` this frame.
/// Actions that no single button produces (dashes, the special) are never
/// "pressed"; they are only ever pattern results.
pub open spec fn spec_action_pressed(action: CharacterAction, input: ScreenSideAdjustedInput) -> bool {
    match action {
        CharacterAction::Crouch => input.down_key_down,
        CharacterAction::MoveForward => input.forward_down,
        CharacterAction::MoveBackward => input.backward_down,
        CharacterAction::LightAttack => input.light_attack,
        CharacterAction::MediumAttack => input.medium_attack,
        CharacterAction::HeavyAttack => input.heavy_attack,
        CharacterAction::LightKick => input.light_kick,
        CharacterAction::MediumKick => input.medium_kick,
        CharacterAction::HeavyKick => input.heavy_kick,
        CharacterAction::Jump => input.jump,
        _ => false,
    }
}

/// One link of a combo chain: an edge-trigger watcher for a single action.
/// It arms on the first frame its action is absent, confirms on a later frame
/// where the action is present, and reports completion as `process_input`
/// describes.
#[derive(Clone, Copy, PartialEq, Eq, Structural, Debug)]
pub struct PatternElement {
    pub character_action: CharacterAction,
    pub start: bool,
    pub confirm: bool,
    pub final_element: bool,
}

/// The watcher state after it observes `input`: it arms when unarmed and the
/// action is absent, confirms when armed and the action is present, and is
/// otherwise unchanged.
pub open spec fn spec_element_next(pe: PatternElement, input: ScreenSideAdjustedInput) -> PatternElement {
    let pressed = spec_action_pressed(pe.character_action, input);
    if !pe.start && !pressed {
        PatternElement { start: true, ..pe }
    } else if pe.start && pressed {
        PatternElement { confirm: true, ..pe }
    } else {
        pe
    }
}

/// What the watcher reports for `input`: a final link completes the moment it
/// confirms; a non-final link completes one frame after confirming, when its
/// action is absent again.
pub open spec fn spec_element_completes(pe: PatternElement, input: ScreenSideAdjustedInput) -> bool {
    let pressed = spec_action_pressed(pe.character_action, input);
    if !pe.start && !pressed {
        false
    } else if pe.start && pressed {
        pe.final_element
    } else if pe.start && !pressed {
        pe.confirm
    } else {
        false
    }
}

impl PatternElement {
    pub fn new(character_action: CharacterAction) -> (r: PatternElement)
        ensures
            r == (PatternElement {
                character_action,
                start: false,
                confirm: false,
                final_element: false,
            }),
    {
        PatternElement { character_action, start: false, confirm: false, final_element: false }
    }

    /// Feed one frame of input to the watcher; the result says whether this
    /// link of the chain is now satisfied.
    pub fn process_input(&mut self, input: &ScreenSideAdjustedInput) -> (r: bool)
        ensures
            *final(self) == spec_element_next(*old(self), *input),
            r == spec_element_completes(*old(self), *input),
    {
        let button_down_in_this_frame: bool = match self.character_action {
            CharacterAction::Crouch => input.down_key_down,
            CharacterAction::MoveForward => input.forward_down,
            CharacterAction::MoveBackward => input.backward_down,
            CharacterAction::LightAttack => input.light_attack,
            CharacterAction::MediumAttack => input.medium_attack,
            CharacterAction::HeavyAttack => input.heavy_attack,
            CharacterAction::LightKick => input.light_kick,
            CharacterAction::MediumKick => input.medium_kick,
            CharacterAction::HeavyKick => input.heavy_kick,
            CharacterAction::Jump => input.jump,
            _ => false,
        };
        if !self.start && !button_down_in_this_frame {
            self.start = true;
            return false;
        } else if self.start && button_down_in_this_frame {
            self.confirm = true;
            if self.final_element {
                return true;
            }
            return false;
        }
        if self.start && self.confirm && (self.final_element || !button_down_in_this_frame) {
            return true;
        }
        false
    }

    /// Disarm the watcher; the action it watches for is kept.
    pub fn reset(&mut self)
        ensures
            *final(self) == (PatternElement { start: false, confirm: false, ..*old(self) }),
    {
        self.start = false;
        self.confirm = false;
    }
}

/// The mathematical model of a `ComboPattern`.
#[verifier::ext_equal]
pub struct ComboPatternV {
    pub pattern: Seq<PatternElement>,
    pub matched: int,
    pub result_action: CharacterAction,
}

/// Well-formed: a nonempty chain, progress within it, and exactly the last
/// link marked final.
pub open spec fn combo_wf(cp: ComboPatternV) -> bool {
    &&& cp.pattern.len() > 0
    &&& 0 <= cp.matched <= cp.pattern.len()
    &&& forall|i: int|
        0 <= i < cp.pattern.len() ==> (#[trigger] cp.pattern[i].final_element <==> i
            == cp.pattern.len() - 1)
}

/// The pattern state after one frame of input reaches its current link: the
/// link's watcher steps, and progress advances when the link completes.
pub open spec fn spec_combo_next(cp: ComboPatternV, input: ScreenSideAdjustedInput) -> ComboPatternV {
    if 0 <= cp.matched < cp.pattern.len() {
        let pe = cp.pattern[cp.matched];
        ComboPatternV {
            pattern: cp.pattern.update(cp.matched, spec_element_next(pe, input)),
            matched: if spec_element_completes(pe, input) {
                cp.matched + 1
            } else {
                cp.matched
            },
            result_action: cp.result_action,
        }
    } else {
        cp
    }
}

/// What the pattern resolves this frame: its result action exactly when its
/// final link completes.
pub open spec fn spec_combo_resolves(cp: ComboPatternV, input: ScreenSideAdjustedInput) -> Option<CharacterAction> {
    if 0 <= cp.matched < cp.pattern.len() && spec_element_completes(cp.pattern[cp.matched], input)
        && cp.matched + 1 == cp.pattern.len() {
        Some(cp.result_action)
    } else {
        None
    }
}

/// The pattern with all progress wound back.
pub open spec fn spec_combo_reset(cp: ComboPatternV) -> ComboPatternV {
    ComboPatternV {
        pattern: cp.pattern.map_values(
            |pe: PatternElement| PatternElement { start: false, confirm: false, ..pe },
        ),
        matched: 0,
        result_action: cp.result_action,
    }
}

/// An ordered chain of watchers and the intent the chain resolves to once
/// every link has completed in order.
#[derive(Clone, PartialEq, Debug)]
pub struct ComboPattern {
    pub pattern: Vec<PatternElement>,
    pub matched_pattern_number: usize,
    pub result_action: CharacterAction,
}

impl View for ComboPattern {
    type V = ComboPatternV;

    open spec fn view(&self) -> ComboPatternV {
        ComboPatternV {
            pattern: self.pattern@,
            matched: self.matched_pattern_number as int,
            result_action: self.result_action,
        }
    }
}

impl ComboPattern {
    /// Build a chain that watches for `pattern` in order and resolves to
    /// `result_action`; the last element is the one marked final.
    pub fn new(pattern: Vec<CharacterAction>, result_action: CharacterAction) -> (r: ComboPattern)
        requires
            pattern@.len() > 0,
        ensures
            r@.pattern.len() == pattern@.len(),
            forall|i: int|
                0 <= i < pattern@.len() ==> #[trigger] r@.pattern[i] == (PatternElement {
                    character_action: pattern@[i],
                    start: false,
                    confirm: false,
                    final_element: i == pattern@.len() - 1,
                }),
            r@.matched == 0,
            r@.result_action == result_action,
            combo_wf(r@),
    {
        let mut elements: Vec<PatternElement> = Vec::new();
        let mut i: usize = 0;
        while i < pattern.len()
            invariant
                i <= pattern@.len(),
                elements@.len() == i,
                forall|j: int|
                    0 <= j < i ==> #[trigger] elements@[j] == (PatternElement {
                        character_action: pattern@[j],
                        start: false,
                        confirm: false,
                        final_element: false,
                    }),
            decreases pattern@.len() - i,
        {
            elements.push(PatternElement::new(pattern[i]));
            i = i + 1;
        }
        let index = elements.len() - 1;
        let mut last = elements[index];
        last.final_element = true;
        elements[index] = last;
        ComboPattern { pattern: elements, matched_pattern_number: 0, result_action }
    }

    /// Feed one frame of input to the chain's current link; the chain resolves
    /// exactly when that link was the final one and completed.
    pub fn process_input(&mut self, input: &ScreenSideAdjustedInput) -> (r: Option<CharacterAction>)
        requires
            combo_wf(old(self)@),
        ensures
            final(self)@ == spec_combo_next(old(self)@, *input),
            r == spec_combo_resolves(old(self)@, *input),
            combo_wf(final(self)@),
    {
        if self.matched_pattern_number != self.pattern.len() {
            let idx = self.matched_pattern_number;
            let completed = self.pattern[idx].process_input(input);
            if completed {
                self.matched_pattern_number = self.matched_pattern_number + 1;
                if self.matched_pattern_number == self.pattern.len() {
                    return Some(self.result_action);
                }
            }
        }
        None
    }

    /// Wind all progress back; the chain itself is kept.
    pub fn reset(&mut self)
        ensures
            final(self)@ == spec_combo_reset(old(self)@),
    {
        self.matched_pattern_number = 0;
        let ghost orig = self.pattern@;
        let mut i: usize = 0;
        while i < self.pattern.len()
            invariant
                i <= self.pattern@.len(),
                self.pattern@.len() == orig.len(),
                forall|j: int|
                    0 <= j < i ==> #[trigger] self.pattern@[j] == (PatternElement {
                        start: false,
                        confirm: false,
                        ..orig[j]
                    }),
                forall|j: int| i <= j < orig.len() ==> #[trigger] self.pattern@[j] == orig[j],
                self.matched_pattern_number == 0,
                self.result_action == old(self).result_action,
            decreases self.pattern@.len() - i,
        {
            self.pattern[i].reset();
            i = i + 1;
        }
        proof {
            assert(self@.pattern =~= spec_combo_reset(old(self)@).pattern);
            assert(self@ =~= spec_combo_reset(old(self)@));
        }
    }
}

/// All chains wound back.
pub open spec fn spec_library_reset(combos: Seq<ComboPatternV>) -> Seq<ComboPatternV> {
    combos.map_values(|c: ComboPatternV| spec_combo_reset(c))
}

/// One frame of input fed to the chains from index `k` on, in declaration
/// order, stopping at the first chain that resolves: the chains' new states
/// and what was resolved.
pub open spec fn spec_scan_combos(
    combos: Seq<ComboPatternV>,
    input: ScreenSideAdjustedInput,
    k: int,
) -> (Seq<ComboPatternV>, Option<CharacterAction>)
    decreases combos.len() - k,
{
    if k < 0 || k >= combos.len() {
        (combos, None)
    } else {
        let stepped = combos.update(k, spec_combo_next(combos[k], input));
        match spec_combo_resolves(combos[k], input) {
            Some(action) => (stepped, Some(action)),
            None => spec_scan_combos(stepped, input, k + 1),
        }
    }
}

/// The whole input history from index `j` on replayed through the chains, in
/// order, stopping the moment any chain resolves.
pub open spec fn spec_scan_history(
    combos: Seq<ComboPatternV>,
    history: Seq<ScreenSideAdjustedInput>,
    j: int,
) -> (Seq<ComboPatternV>, Option<CharacterAction>)
    decreases history.len() - j,
{
    if j < 0 || j >= history.len() {
        (combos, None)
    } else {
        let pass = spec_scan_combos(combos, history[j], 0);
        match pass.1 {
            Some(action) => pass,
            None => spec_scan_history(pass.0, history, j + 1),
        }
    }
}

/// The library of combo patterns shared by the match, in declaration order;
/// earlier patterns win ties.
#[derive(Clone, PartialEq, Debug)]
pub struct ComboLibrary {
    pub combos: Vec<ComboPattern>,
}

impl View for ComboLibrary {
    type V = Seq<ComboPatternV>;

    open spec fn view(&self) -> Seq<ComboPatternV> {
        self.combos@.map_values(|c: ComboPattern| c@)
    }
}

pub open spec fn library_wf(combos: Seq<ComboPatternV>) -> bool {
    forall|i: int| 0 <= i < combos.len() ==> combo_wf(#[trigger] combos[i])
}

impl ComboLibrary {
    /// Wind every chain back.
    pub fn reset(&mut self)
        ensures
            final(self)@ =~= spec_library_reset(old(self)@),
    {
        let ghost orig = self@;
        let mut i: usize = 0;
        while i < self.combos.len()
            invariant
                i <= self.combos@.len(),
                self.combos@.len() == orig.len(),
                self@.len() == orig.len(),
                forall|j: int| 0 <= j < i ==> #[trigger] self@[j] == spec_combo_reset(orig[j]),
                forall|j: int| i <= j < orig.len() ==> #[trigger] self@[j] == orig[j],
            decreases self.combos@.len() - i,
        {
            let ghost prev = self@;
            self.combos[i].reset();
            proof {
                assert forall|j: int| 0 <= j < orig.len() && j != i implies #[trigger] self@[j]
                    == prev[j] by {
                    assert(self@[j] == self.combos@[j]@);
                }
                assert(self@[i as int] == spec_combo_reset(prev[i as int]));
            }
            i = i + 1;
        }
    }

    /// Feed one frame of input to every chain in declaration order, stopping
    /// at the first that resolves.
    pub fn scan_input(&mut self, input: &ScreenSideAdjustedInput) -> (r: Option<CharacterAction>)
        requires
            library_wf(old(self)@),
        ensures
            (final(self)@, r) == spec_scan_combos(old(self)@, *input, 0),
            library_wf(final(self)@),
    {
        let ghost orig = self@;
        let mut i: usize = 0;
        while i < self.combos.len()
            invariant
                orig == old(self)@,
                i <= self.combos@.len(),
                self@.len() == orig.len(),
                library_wf(self@),
                spec_scan_combos(orig, *input, 0) == spec_scan_combos(self@, *input, i as int),
            decreases self.combos@.len() - i,
        {
            let ghost prev = self@;
            proof {
                assert(prev[i as int] == self.combos@[i as int]@);
            }
            let r = self.combos[i].process_input(input);
            proof {
                let stepped = prev.update(i as int, spec_combo_next(prev[i as int], *input));
                assert forall|j: int| 0 <= j < prev.len() implies #[trigger] self@[j]
                    == stepped[j] by {
                    assert(self@[j] == self.combos@[j]@);
                }
                assert(self@ =~= stepped);
                assert(r == spec_combo_resolves(prev[i as int], *input));
                assert(spec_scan_combos(prev, *input, i as int) == (
                    match spec_combo_resolves(prev[i as int], *input) {
                        Some(action) => (stepped, Some(action)),
                        None => spec_scan_combos(stepped, *input, i as int + 1),
                    }
                ));
            }
            if r.is_some() {
                proof {
                    assert(spec_scan_combos(old(self)@, *input, 0) == (self@, r));
                }
                return r;
            }
            i = i + 1;
        }
        None
    }
}

impl Default for ComboLibrary {
    /// The default pattern library, as `default_combo_library` builds it.
    fn default() -> (r: ComboLibrary)
        ensures
            r@.len() == 3,
            library_wf(r@),
            r@ == spec_library_reset(r@),
    {
        default_combo_library()
    }
}

/// The default pattern library: double-tap forward and backward dashes and
/// the crouch, forward, light-attack special, in that priority order.
pub fn default_combo_library() -> (r: ComboLibrary)
    ensures
        r@.len() == 3,
        library_wf(r@),
        r@ == spec_library_reset(r@),
        r@[0].result_action == CharacterAction::DashForward,
        r@[0].pattern.map_values(|pe: PatternElement| pe.character_action) =~= seq![
            CharacterAction::MoveForward,
            CharacterAction::MoveForward,
        ],
        r@[1].result_action == CharacterAction::DashBackward,
        r@[1].pattern.map_values(|pe: PatternElement| pe.character_action) =~= seq![
            CharacterAction::MoveBackward,
            CharacterAction::MoveBackward,
        ],
        r@[2].result_action == CharacterAction::Special1,
        r@[2].pattern.map_values(|pe: PatternElement| pe.character_action) =~= seq![
            CharacterAction::Crouch,
            CharacterAction::MoveForward,
            CharacterAction::LightAttack,
        ],
{
    let mut forward_taps: Vec<CharacterAction> = Vec::new();
    forward_taps.push(CharacterAction::MoveForward);
    forward_taps.push(CharacterAction::MoveForward);
    let forward_dash = ComboPattern::new(forward_taps, CharacterAction::DashForward);

    let mut backward_taps: Vec<CharacterAction> = Vec::new();
    backward_taps.push(CharacterAction::MoveBackward);
    backward_taps.push(CharacterAction::MoveBackward);
    let backward_dash = ComboPattern::new(backward_taps, CharacterAction::DashBackward);

    let mut special_steps: Vec<CharacterAction> = Vec::new();
    special_steps.push(CharacterAction::Crouch);
    special_steps.push(CharacterAction::MoveForward);
    special_steps.push(CharacterAction::LightAttack);
    let special = ComboPattern::new(special_steps, CharacterAction::Special1);

    let mut combos: Vec<ComboPattern> = Vec::new();
    combos.push(forward_dash);
    combos.push(backward_dash);
    combos.push(special);
    let r = ComboLibrary { combos };
    proof {
        assert forall|k: int| 0 <= k < r@.len() implies #[trigger] spec_library_reset(r@)[k]
            == r@[k] by {
            assert(spec_combo_reset(r@[k]).pattern =~= r@[k].pattern);
            assert(spec_combo_reset(r@[k]) =~= r@[k]);
        }
        assert(r@ =~= spec_library_reset(r@));
    }
    r
}

} // verus!
