//! The conservation checker, which watches how the remaining tokens of each model fall.
//!
//! [`ConservationChecker`] comes from the `conservation-checker` crate. What it keeps is named
//! here, and each of its methods that the guard calls is stated over that name. These statements
//! are taken on trust; everything built on them is proved.

use conservation_checker::ConservationChecker;
use vstd::prelude::*;

use crate::phase::Phase;

verus! {

/// The tracker of the `conservation-checker` crate, opaque here.
#[verifier::external_type_specification]
#[verifier::external_body]
pub struct ExConservationChecker(ConservationChecker);

/// What the checker keeps of one registered quantity.
///
/// The checker computes in double precision. The numbers that are handed to it here are whole, and
/// so are the doubles nearest to them; only the tolerance may be a fraction.
#[verifier::ext_equal]
pub struct Quantity {
    /// The value it was registered with.
    pub initial: nat,
    /// How far it may fall below that before it counts as violated, in units of `2^-59`.
    pub tolerance: nat,
    /// The value last handed over.
    pub current: nat,
    /// The values recorded so far, the oldest first.
    pub history: Seq<nat>,
}

/// The tolerance that is kept where `hundredths / 100` is handed over: the double nearest to it, in
/// units of `2^-59`. No double from a hundredth on needs a finer unit.
pub open spec fn tolerance_of(hundredths: nat) -> nat {
    crate::double::rounded(hundredths * 0x800_0000_0000_0000, 100)
}

impl Quantity {
    /// A quantity that was just registered.
    pub open spec fn registered(initial: nat, tolerance: nat) -> Quantity {
        Quantity { initial, tolerance, current: initial, history: seq![initial] }
    }

    /// The quantity with `value` as its current value.
    pub open spec fn updated(self, value: nat) -> Quantity {
        Quantity { current: value, ..self }
    }

    /// The quantity with its current value recorded once more.
    pub open spec fn recorded(self) -> Quantity {
        Quantity { history: self.history.push(self.current), ..self }
    }

    /// Whether the current value lies below the initial value less the tolerance, a difference that
    /// is rounded to a double.
    pub open spec fn violated(self) -> bool {
        let floor = self.initial * 0x800_0000_0000_0000 - self.tolerance;
        floor > 0 && self.current * 0x800_0000_0000_0000 < crate::double::double_of(floor as nat)
    }

    /// The change of the recorded value that stands `back` places before the last one.
    pub open spec fn change(self, back: int) -> int {
        self.history[self.history.len() - 1 - back] - self.history[self.history.len() - 2 - back]
    }

    /// The largest change that is taken for noise, in units of `2^-118`: the product of the
    /// tolerance, but at least one, with the double nearest to a hundredth, rounded to a double.
    pub open spec fn noise(self) -> nat {
        let base = if self.tolerance > 0x800_0000_0000_0000 {
            self.tolerance
        } else {
            0x800_0000_0000_0000
        };
        crate::double::double_of(base * 5764607523034235)
    }

    /// Whether a change is more than noise.
    pub open spec fn stands_out(self, change: int) -> bool {
        size(change) * 0x40_0000_0000_0000_0000_0000_0000_0000 > self.noise()
    }

    /// The phase of the quantity: transitioning while it is violated and falls, resolving while it
    /// is violated and rises, and about to transition while it is not violated but changes by more
    /// than two records earlier. Changes that are noise count for nothing, and neither does
    /// anything before the third record.
    pub open spec fn phase(self) -> Phase {
        if self.history.len() < 3 || !self.stands_out(self.change(0)) {
            Phase::Stable
        } else if self.violated() {
            if self.change(0) < 0 {
                Phase::Transitioning
            } else {
                Phase::Resolving
            }
        } else if self.history.len() < 4 || size(self.change(0)) > size(self.change(2)) {
            Phase::PreTransition
        } else {
            Phase::Stable
        }
    }
}

/// The size of a change, a difference that is rounded to a double.
pub open spec fn size(change: int) -> nat {
    crate::double::double_of(vstd::math::abs(change))
}

/// What a checker holds: the quantities registered with it, by name.
pub uninterp spec fn quantities(checker: ConservationChecker) -> Map<Seq<char>, Quantity>;

/// `ConservationChecker::new`: nothing is registered with a new checker.
#[verifier::external_body]
pub(crate) fn new_checker() -> (checker: ConservationChecker)
    ensures
        quantities(checker) == (Map::<Seq<char>, Quantity>::empty()),
{
    ConservationChecker::new()
}

/// `ConservationChecker::register`: the name now stands for a quantity whose current value and only
/// recorded value is `initial`, whatever it stood for before. Other names are left alone. What is
/// kept of both numbers are the doubles nearest to them: `initial` is cast to one, and the
/// tolerance, given in hundredths, is read as one from its decimal text.
#[verifier::external_body]
pub(crate) fn register(
    checker: &mut ConservationChecker,
    name: &str,
    initial: u64,
    hundredths: u128,
)
    ensures
        quantities(*final(checker)) == quantities(*old(checker)).insert(
            name@,
            Quantity::registered(
                crate::double::double_of(initial as nat),
                tolerance_of(hundredths as nat),
            ),
        ),
{
    checker.register(name, initial as _, format!("{hundredths}e-2").parse().unwrap())
}

/// `ConservationChecker::update`: sets the current value of a registered quantity, to the double
/// nearest to `value`, and nothing else. It panics on a name that is not registered.
#[verifier::external_body]
pub(crate) fn update(checker: &mut ConservationChecker, name: &str, value: u64)
    requires
        quantities(*old(checker)).contains_key(name@),
    ensures
        quantities(*final(checker)) == quantities(*old(checker)).insert(
            name@,
            quantities(*old(checker))[name@].updated(crate::double::double_of(value as nat)),
        ),
{
    checker.update(name, value as _)
}

/// `ConservationChecker::snapshot`: records the current value of every quantity.
#[verifier::external_body]
pub(crate) fn record_all(checker: &mut ConservationChecker)
    ensures
        quantities(*final(checker)) == quantities(*old(checker)).map_values(
            |quantity: Quantity| quantity.recorded(),
        ),
{
    checker.snapshot()
}

/// `ConservationChecker::registered`: lists each registered name once. The order is left open, as
/// the checker walks a hash map.
#[verifier::external_body]
pub(crate) fn registered(checker: &ConservationChecker) -> (names: Vec<String>)
    ensures
        forall|i: int|
            0 <= i < names@.len() ==> quantities(*checker).contains_key(#[trigger] names@[i]@),
        forall|name: Seq<char>| #[trigger]
            quantities(*checker).contains_key(name) ==> exists|i: int|
                0 <= i < names@.len() && #[trigger] names@[i]@ == name,
        forall|i: int, j: int|
            0 <= i < j < names@.len() ==> #[trigger] names@[i]@ != #[trigger] names@[j]@,
{
    checker.registered()
}

/// `ConservationChecker::phase`: the phase of a registered quantity, worked out from what is kept of
/// it. It panics on a name that is not registered.
#[verifier::external_body]
pub(crate) fn phase(checker: &ConservationChecker, name: &str) -> (phase: Phase)
    requires
        quantities(*checker).contains_key(name@),
    ensures
        phase == quantities(*checker)[name@].phase(),
{
    match checker.phase(name) {
        conservation_checker::Phase::Stable => Phase::Stable,
        conservation_checker::Phase::PreTransition => Phase::PreTransition,
        conservation_checker::Phase::Transitioning => Phase::Transitioning,
        conservation_checker::Phase::Resolving => Phase::Resolving,
    }
}

/// Whether a quantity is registered under `name`.
pub(crate) fn is_registered(checker: &ConservationChecker, name: &str) -> (found: bool)
    ensures
        found == quantities(*checker).contains_key(name@),
{
    let wanted = name.to_string();
    let names = registered(checker);
    let mut i: usize = 0;
    while i < names.len()
        invariant
            wanted@ == name@,
            i <= names@.len(),
            forall|k: int| 0 <= k < i ==> #[trigger] names@[k]@ != name@,
            forall|k: int|
                0 <= k < names@.len() ==> quantities(*checker).contains_key(#[trigger] names@[k]@),
        decreases names@.len() - i,
    {
        if names[i] == wanted {
            assert(quantities(*checker).contains_key(names@[i as int]@));
            return true;
        }
        i = i + 1;
    }
    false
}

/// Where the limit of a budget is at most `2^48`, five percent of it are kept closely enough for the
/// checker to decide as exact arithmetic would: a quantity that started at the limit is violated
/// once it has fallen below 95% of it, and a change stands out where it is more than a hundredth of
/// the tolerance (or of a token, whichever is more).
pub proof fn law_tolerance_decides_exactly(quantity: Quantity, limit: nat)
    requires
        limit <= 0x1_0000_0000_0000,
        quantity.initial == limit,
        quantity.tolerance == tolerance_of(5 * limit),
        quantity.current <= limit,
    ensures
        quantity.violated() <==> 20 * quantity.current < 19 * limit,
        forall|change: int|
            -limit <= change <= limit ==> (#[trigger] quantity.stands_out(change) <==> 2000
                * vstd::math::abs(change) > vstd::math::max(limit as int, 20)),
{
    lemma_violation(quantity, limit);
    assert forall|change: int| -limit <= change <= limit implies (#[trigger] quantity.stands_out(
        change,
    ) <==> 2000 * vstd::math::abs(change) > vstd::math::max(limit as int, 20)) by {
        lemma_stands_out(quantity, limit, change);
    }
}

/// Five percent are kept up to one part in `2^53`, and exactly where they are a whole number.
proof fn lemma_tolerance(limit: nat)
    requires
        limit <= 0x1_0000_0000_0000,
    ensures
        ({
            let tolerance = tolerance_of(5 * limit);
            let exact = limit * 0x800_0000_0000_0000;
            &&& 0x20_0000_0000_0000 * (20 * tolerance - exact) <= exact
            &&& 0x20_0000_0000_0000 * (exact - 20 * tolerance) <= exact
            &&& limit % 20 == 0 ==> 20 * tolerance == exact
        }),
{
    if limit > 0 {
        crate::double::law_rounding_errs_little(5 * limit * 0x800_0000_0000_0000, 100);
    }
    if limit % 20 == 0 {
        vstd::arithmetic::power2::lemma2_to64_rest();
        crate::double::law_scaled_numbers_are_doubles(limit / 20, 59, 100);
    }
}

/// The first half of [`law_tolerance_decides_exactly`].
proof fn lemma_violation(quantity: Quantity, limit: nat)
    requires
        limit <= 0x1_0000_0000_0000,
        quantity.initial == limit,
        quantity.tolerance == tolerance_of(5 * limit),
        quantity.current <= limit,
    ensures
        quantity.violated() <==> 20 * quantity.current < 19 * limit,
{
    let left = quantity.current;
    lemma_tolerance(limit);
    let floor = limit * 0x800_0000_0000_0000 - quantity.tolerance;
    if floor > 0 {
        crate::double::law_rounding_errs_little(floor as nat, 1);
    }
    if 20 * left == 19 * limit {
        vstd::arithmetic::power2::lemma2_to64_rest();
        crate::double::law_scaled_numbers_are_doubles(left, 59, 1);
        assert(floor == left * 0x800_0000_0000_0000);
    }
}

/// The second half of [`law_tolerance_decides_exactly`].
proof fn lemma_stands_out(quantity: Quantity, limit: nat, change: int)
    requires
        limit <= 0x1_0000_0000_0000,
        quantity.tolerance == tolerance_of(5 * limit),
        -limit <= change <= limit,
    ensures
        quantity.stands_out(change) <==> 2000 * vstd::math::abs(change) > vstd::math::max(
            limit as int,
            20,
        ),
{
    let amount = vstd::math::abs(change);
    let tolerance = quantity.tolerance;
    crate::double::law_small_numbers_are_doubles(amount);
    vstd::arithmetic::power2::lemma2_to64_rest();
    vstd::arithmetic::power2::lemma_pow2_adds(59, 59);
    lemma_tolerance(limit);
    if limit <= 20 {
        crate::double::law_scaled_numbers_are_doubles(5764607523034235, 59, 1);
    } else {
        let product = tolerance * 5764607523034235;
        crate::double::law_rounding_errs_little(product, 1);
        if 2000 * amount == limit {
            let rest = 12 * amount * 0x800_0000_0000_0000;
            assert(product == amount * 0x40_0000_0000_0000_0000_0000_0000_0000 + rest);
            crate::double::lemma_spacing(product, 1);
            crate::double::lemma_rounds_down(amount, 118, 1, rest as nat);
        }
    }
}

/// What the checker keeps of a quantity changes by what is handed over alone: registering sets all
/// of it, an update the current value, and recording appends that to the history.
pub proof fn law_quantities_keep_what_is_handed_over(
    quantity: Quantity,
    initial: nat,
    tolerance: nat,
    value: nat,
)
    ensures
        Quantity::registered(initial, tolerance).initial == initial,
        Quantity::registered(initial, tolerance).tolerance == tolerance,
        Quantity::registered(initial, tolerance).current == initial,
        Quantity::registered(initial, tolerance).history == seq![initial],
        quantity.updated(value).initial == quantity.initial,
        quantity.updated(value).tolerance == quantity.tolerance,
        quantity.updated(value).current == value,
        quantity.updated(value).history == quantity.history,
        quantity.recorded().initial == quantity.initial,
        quantity.recorded().tolerance == quantity.tolerance,
        quantity.recorded().current == quantity.current,
        quantity.recorded().history == quantity.history.push(quantity.current),
{
}

/// No double is nearer to the tolerance that was handed over than the one that is kept.
pub proof fn law_no_tolerance_is_nearer(hundredths: nat, bits: nat, exponent: nat)
    requires
        bits <= 0x20_0000_0000_0000,
    ensures
        vstd::math::abs(100 * tolerance_of(hundredths) - hundredths * 0x800_0000_0000_0000)
            <= vstd::math::abs(
            100 * (bits * vstd::arithmetic::power2::pow2(exponent)) - hundredths
                * 0x800_0000_0000_0000,
        ),
{
    crate::double::law_no_double_is_nearer(
        hundredths * 0x800_0000_0000_0000,
        100,
        bits,
        exponent,
    );
}

/// When each phase is reported, whatever the numbers. A quantity has to have been recorded three
/// times, and the last change has to exceed the noise. It is then transitioning or resolving by the
/// direction of the change, where the current value lies below the floor; otherwise it is about to
/// transition, where the change is larger than two records earlier.
pub proof fn law_phases_by_records(quantity: Quantity)
    ensures
        ({
            let records = quantity.history;
            let count = records.len() as int;
            let last = records[count - 1] - records[count - 2];
            let earlier = records[count - 3] - records[count - 4];
            let floor = quantity.initial * 0x800_0000_0000_0000 - quantity.tolerance;
            let below = floor > 0 && quantity.current * 0x800_0000_0000_0000
                < crate::double::double_of(floor as nat);
            let noise = crate::double::double_of(
                vstd::math::max(quantity.tolerance as int, 0x800_0000_0000_0000) as nat
                    * 5764607523034235,
            );
            let amount = crate::double::double_of(vstd::math::abs(last));
            let loud = count >= 3 && amount * 0x40_0000_0000_0000_0000_0000_0000_0000 > noise;
            &&& quantity.phase() is Transitioning <==> loud && below && last < 0
            &&& quantity.phase() is Resolving <==> loud && below && last > 0
            &&& quantity.phase() is PreTransition <==> loud && !below && (count < 4 || amount
                > crate::double::double_of(vstd::math::abs(earlier)))
        }),
{
    crate::double::law_small_numbers_are_doubles(0);
}

} // verus!
