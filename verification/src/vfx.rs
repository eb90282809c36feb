//! Map effect profiles: which effect rules a scene object receives, given a
//! per-rule stride and instance cap.
use vstd::prelude::*;

verus! {

/// How many objects a rule has seen so far, and to how many it applied.
#[derive(Clone, Copy, Debug, Default, PartialEq, Eq, Structural)]
pub struct RuleBudgetState {
    pub seen: u32,
    pub applied: u32,
}

/// The initial budget state: nothing seen, nothing applied.
pub open spec fn fresh_budget() -> RuleBudgetState {
    RuleBudgetState { seen: 0, applied: 0 }
}

/// `n + 1`, held at `u32::MAX`.
pub open spec fn saturating_inc(n: u32) -> u32 {
    if n == u32::MAX {
        u32::MAX
    } else {
        (n + 1) as u32
    }
}

/// One more object offered to a rule: it is counted as seen; the rule
/// applies to every `stride`-th object it sees (the first, then every
/// `stride` more; a stride of 0 counts as 1) until it has applied
/// `max_instances` times. Returns whether it applies, and the new state.
pub open spec fn spec_consume_rule_budget(
    spawn_stride: u32,
    max_instances: Option<u32>,
    state: RuleBudgetState,
) -> (bool, RuleBudgetState) {
    let seen = saturating_inc(state.seen);
    let stride: int = if spawn_stride == 0 {
        1
    } else {
        spawn_stride as int
    };
    if (seen - 1) % stride != 0 {
        (false, RuleBudgetState { seen, applied: state.applied })
    } else if max_instances is Some && state.applied >= max_instances->0 {
        (false, RuleBudgetState { seen, applied: state.applied })
    } else {
        (true, RuleBudgetState { seen, applied: saturating_inc(state.applied) })
    }
}

/// Offers one more object to a rule; see [`spec_consume_rule_budget`].
pub fn consume_rule_budget(
    spawn_stride: u32,
    max_instances: Option<u32>,
    state: &mut RuleBudgetState,
) -> (r: bool)
    ensures
        (r, *final(state)) == spec_consume_rule_budget(spawn_stride, max_instances, *old(state)),
{
    state.seen = state.seen.saturating_add(1);
    let stride = if spawn_stride > 1 {
        spawn_stride
    } else {
        1
    };
    if (state.seen - 1) % stride != 0 {
        return false;
    }
    if let Some(max_instances) = max_instances {
        if state.applied >= max_instances {
            return false;
        }
    }
    state.applied = state.applied.saturating_add(1);
    true
}


/// The stride a rule really uses: its own, with 0 counted as 1.
pub open spec fn effective_stride(spawn_stride: u32) -> nat {
    if spawn_stride == 0 {
        1
    } else {
        spawn_stride as nat
    }
}

/// Offering `n` objects, one after another, to a fresh rule: how many it
/// applied to, and its state afterwards.
pub open spec fn budget_run(spawn_stride: u32, max_instances: Option<u32>, n: nat) -> (
    nat,
    RuleBudgetState,
)
    decreases n,
{
    if n == 0 {
        (0, fresh_budget())
    } else {
        let (count, state) = budget_run(spawn_stride, max_instances, (n - 1) as nat);
        let (applies, next) = spec_consume_rule_budget(spawn_stride, max_instances, state);
        (count + if applies {
            1nat
        } else {
            0nat
        }, next)
    }
}

/// `n / d` rounded up.
pub open spec fn ceil_div(n: nat, d: nat) -> nat {
    ((n + d - 1) / (d as int)) as nat
}

proof fn lemma_ceil_div_step(m: nat, d: nat)
    requires
        d >= 1,
    ensures
        ceil_div(m + 1, d) == ceil_div(m, d) + if m % d == 0 {
            1nat
        } else {
            0nat
        },
{
    let q = m as int / d as int;
    let r = m as int % d as int;
    vstd::arithmetic::div_mod::lemma_fundamental_div_mod(m as int, d as int);
    assert(m == q * d + r) by (nonlinear_arith)
        requires
            m == d * q + r,
    ;
    if r == 0 {
        vstd::arithmetic::div_mod::lemma_fundamental_div_mod_converse(
            m + d - 1,
            d as int,
            q,
            d - 1,
        );
        assert(m + 1 + d - 1 == (q + 1) * d + 0) by (nonlinear_arith)
            requires
                m == q * d + r,
                r == 0,
        ;
        vstd::arithmetic::div_mod::lemma_fundamental_div_mod_converse(
            m + 1 + d - 1,
            d as int,
            q + 1,
            0,
        );
    } else {
        assert(m + d - 1 == (q + 1) * d + (r - 1)) by (nonlinear_arith)
            requires
                m == q * d + r,
        ;
        vstd::arithmetic::div_mod::lemma_fundamental_div_mod_converse(
            m + d - 1,
            d as int,
            q + 1,
            r - 1,
        );
        assert(m + 1 + d - 1 == (q + 1) * d + r) by (nonlinear_arith)
            requires
                m == q * d + r,
        ;
        vstd::arithmetic::div_mod::lemma_fundamental_div_mod_converse(
            m + 1 + d - 1,
            d as int,
            q + 1,
            r,
        );
    }
}

/// The number of objects a rule applies to: one in every `stride` of the
/// objects offered, starting with the first, but no more than its cap.
pub open spec fn expected_applications(spawn_stride: u32, max_instances: Option<u32>, n: nat) -> nat {
    let wanted = ceil_div(n, effective_stride(spawn_stride));
    match max_instances {
        Some(cap) => if wanted < cap {
            wanted
        } else {
            cap as nat
        },
        None => wanted,
    }
}

/// Offered `n` objects one after another, a fresh rule counts all `n` as
/// seen and applies to `ceil(n / stride)` of them, capped at its
/// `max_instances`; its `applied` counter is that number.
pub proof fn lemma_rule_budget_run(spawn_stride: u32, max_instances: Option<u32>, n: nat)
    requires
        n <= u32::MAX,
    ensures
        budget_run(spawn_stride, max_instances, n).1.seen == n,
        budget_run(spawn_stride, max_instances, n).1.applied == budget_run(
            spawn_stride,
            max_instances,
            n,
        ).0,
        budget_run(spawn_stride, max_instances, n).0 == expected_applications(
            spawn_stride,
            max_instances,
            n,
        ),
    decreases n,
{
    if n > 0 {
        let m = (n - 1) as nat;
        lemma_rule_budget_run(spawn_stride, max_instances, m);
        lemma_ceil_div_step(m, effective_stride(spawn_stride));
        let (count, state) = budget_run(spawn_stride, max_instances, m);
        assert(count <= m) by {
            lemma_expected_at_most(spawn_stride, max_instances, m);
        }
        assert(state.seen == m);
        assert((saturating_inc(state.seen) - 1) == m);
        let d = effective_stride(spawn_stride);
        let stride: int = if spawn_stride == 0 {
            1
        } else {
            spawn_stride as int
        };
        assert(stride == d);
        let (applies, next) = spec_consume_rule_budget(spawn_stride, max_instances, state);
        assert(next.seen == n);
        if m % d == 0 {
            match max_instances {
                Some(cap) => {
                    if ceil_div(m, d) < cap {
                        assert(applies);
                    } else {
                        assert(!applies);
                    }
                },
                None => {
                    assert(applies);
                },
            }
        } else {
            assert(!applies);
        }
    } else {
        lemma_expected_at_most(spawn_stride, max_instances, 0);
    }
}

proof fn lemma_expected_at_most(spawn_stride: u32, max_instances: Option<u32>, n: nat)
    ensures
        expected_applications(spawn_stride, max_instances, n) <= n,
{
    let d = effective_stride(spawn_stride);
    if n > 0 {
        assert(n + d - 1 <= n * d) by (nonlinear_arith)
            requires
                n >= 1,
                d >= 1,
        ;
        vstd::arithmetic::div_mod::lemma_div_is_ordered(
            (n + d - 1) as int,
            (n * d) as int,
            d as int,
        );
        vstd::arithmetic::div_mod::lemma_div_multiples_vanish(n as int, d as int);
    } else {
        assert(ceil_div(0, d) == 0) by {
            vstd::arithmetic::div_mod::lemma_fundamental_div_mod_converse(
                (d - 1) as int,
                d as int,
                0,
                (d - 1) as int,
            );
        }
    }
}


/// What the budget of an effect rule needs: the object type it targets,
/// its stride and its cap.
#[derive(Clone, Copy, Debug, PartialEq, Eq, Structural)]
pub struct VfxRuleBudget {
    pub object_type: u32,
    pub spawn_stride: u32,
    pub max_instances: Option<u32>,
}

/// The override rule an object of type `kind` gets, looking from rule `i`
/// on: the first rule of that type whose budget applies. Every rule of that
/// type looked at counts the object as seen. Returns the rule, if any, and
/// the budgets afterwards.
pub open spec fn spec_override_choice(
    rules: Seq<VfxRuleBudget>,
    budgets: Seq<RuleBudgetState>,
    kind: u32,
    i: nat,
) -> (Option<usize>, Seq<RuleBudgetState>)
    decreases rules.len() - i,
{
    if i >= rules.len() {
        (None, budgets)
    } else if rules[i as int].object_type != kind {
        spec_override_choice(rules, budgets, kind, i + 1)
    } else {
        let (applies, next) = spec_consume_rule_budget(
            rules[i as int].spawn_stride,
            rules[i as int].max_instances,
            budgets[i as int],
        );
        let updated = budgets.update(i as int, next);
        if applies {
            (Some(i as usize), updated)
        } else {
            spec_override_choice(rules, updated, kind, i + 1)
        }
    }
}

/// The sprite rules an object of type `kind` gets, looking from rule `i`
/// on: every rule of that type whose budget applies, in order. Returns
/// them and the budgets afterwards.
pub open spec fn spec_sprite_choices(
    rules: Seq<VfxRuleBudget>,
    budgets: Seq<RuleBudgetState>,
    kind: u32,
    i: nat,
) -> (Seq<usize>, Seq<RuleBudgetState>)
    decreases rules.len() - i,
{
    if i >= rules.len() {
        (Seq::empty(), budgets)
    } else if rules[i as int].object_type != kind {
        spec_sprite_choices(rules, budgets, kind, i + 1)
    } else {
        let (applies, next) = spec_consume_rule_budget(
            rules[i as int].spawn_stride,
            rules[i as int].max_instances,
            budgets[i as int],
        );
        let (rest, last) = spec_sprite_choices(rules, budgets.update(i as int, next), kind, i + 1);
        (if applies {
            seq![i as usize] + rest
        } else {
            rest
        }, last)
    }
}

/// The effect rules chosen for one scene object: at most one override
/// rule and any number of sprite rules, by index into their lists.
#[derive(Clone, Debug)]
pub struct VfxObjectPlan {
    pub override_rule: Option<usize>,
    pub sprite_rules: Vec<usize>,
}

/// The choices for objects of types `kinds`, offered in order, and the
/// override and sprite budgets afterwards.
pub open spec fn spec_vfx_plan(
    overrides: Seq<VfxRuleBudget>,
    sprites: Seq<VfxRuleBudget>,
    kinds: Seq<u32>,
) -> (Seq<(Option<usize>, Seq<usize>)>, Seq<RuleBudgetState>, Seq<RuleBudgetState>)
    decreases kinds.len(),
{
    if kinds.len() == 0 {
        (
            Seq::empty(),
            Seq::new(overrides.len(), |i: int| fresh_budget()),
            Seq::new(sprites.len(), |i: int| fresh_budget()),
        )
    } else {
        let (plans, override_budgets, sprite_budgets) = spec_vfx_plan(
            overrides,
            sprites,
            kinds.drop_last(),
        );
        let (chosen, override_after) = spec_override_choice(
            overrides,
            override_budgets,
            kinds.last(),
            0,
        );
        let (sprite_rules, sprite_after) = spec_sprite_choices(
            sprites,
            sprite_budgets,
            kinds.last(),
            0,
        );
        (plans.push((chosen, sprite_rules)), override_after, sprite_after)
    }
}

/// What a plan says: its override rule and its sprite rules.
pub open spec fn plan_view(plan: VfxObjectPlan) -> (Option<usize>, Seq<usize>) {
    (plan.override_rule, plan.sprite_rules@)
}

proof fn lemma_override_choice_len(
    rules: Seq<VfxRuleBudget>,
    budgets: Seq<RuleBudgetState>,
    kind: u32,
    i: nat,
)
    requires
        budgets.len() == rules.len(),
        rules.len() <= usize::MAX,
    ensures
        spec_override_choice(rules, budgets, kind, i).1.len() == rules.len(),
        spec_override_choice(rules, budgets, kind, i).0 matches Some(k) ==> i <= k < rules.len()
            && rules[k as int].object_type == kind,
    decreases rules.len() - i,
{
    if i < rules.len() {
        let (applies, next) = spec_consume_rule_budget(
            rules[i as int].spawn_stride,
            rules[i as int].max_instances,
            budgets[i as int],
        );
        if rules[i as int].object_type != kind {
            lemma_override_choice_len(rules, budgets, kind, i + 1);
        } else {
            lemma_override_choice_len(rules, budgets.update(i as int, next), kind, i + 1);
        }
    }
}

proof fn lemma_sprite_choices_len(
    rules: Seq<VfxRuleBudget>,
    budgets: Seq<RuleBudgetState>,
    kind: u32,
    i: nat,
)
    requires
        budgets.len() == rules.len(),
        rules.len() <= usize::MAX,
    ensures
        spec_sprite_choices(rules, budgets, kind, i).1.len() == rules.len(),
        forall|j: int|
            0 <= j < spec_sprite_choices(rules, budgets, kind, i).0.len() ==> i <= (
            #[trigger] spec_sprite_choices(rules, budgets, kind, i).0[j]) < rules.len()
                && rules[spec_sprite_choices(rules, budgets, kind, i).0[j] as int].object_type
                == kind,
    decreases rules.len() - i,
{
    if i < rules.len() {
        let (applies, next) = spec_consume_rule_budget(
            rules[i as int].spawn_stride,
            rules[i as int].max_instances,
            budgets[i as int],
        );
        if rules[i as int].object_type != kind {
            lemma_sprite_choices_len(rules, budgets, kind, i + 1);
        } else {
            lemma_sprite_choices_len(rules, budgets.update(i as int, next), kind, i + 1);
            let rest = spec_sprite_choices(rules, budgets.update(i as int, next), kind, i + 1).0;
            let all = spec_sprite_choices(rules, budgets, kind, i).0;
            assert forall|j: int| 0 <= j < all.len() implies i <= (#[trigger] all[j]) < rules.len()
                && rules[all[j] as int].object_type == kind by {
                if applies && j > 0 {
                    assert(all[j] == rest[j - 1]);
                }
            }
        }
    }
}

fn override_choice(
    rules: &Vec<VfxRuleBudget>,
    budgets: &mut Vec<RuleBudgetState>,
    kind: u32,
) -> (r: Option<usize>)
    requires
        old(budgets)@.len() == rules@.len(),
    ensures
        (r, final(budgets)@) == spec_override_choice(rules@, old(budgets)@, kind, 0),
{
    let ghost start = budgets@;
    let mut chosen: Option<usize> = None;
    let mut i: usize = 0;
    while i < rules.len() && chosen.is_none()
        invariant
            i <= rules@.len(),
            budgets@.len() == rules@.len(),
            chosen is None ==> spec_override_choice(rules@, start, kind, 0) == spec_override_choice(
                rules@,
                budgets@,
                kind,
                i as nat,
            ),
            chosen is Some ==> spec_override_choice(rules@, start, kind, 0) == (chosen, budgets@),
        decreases rules@.len() - i + if chosen is None {
            1int
        } else {
            0int
        },
    {
        let rule = rules[i];
        if rule.object_type == kind {
            let mut state = budgets[i];
            let applies = consume_rule_budget(rule.spawn_stride, rule.max_instances, &mut state);
            budgets.set(i, state);
            if applies {
                chosen = Some(i);
            }
        }
        i = i + 1;
    }
    chosen
}

fn sprite_choices(
    rules: &Vec<VfxRuleBudget>,
    budgets: &mut Vec<RuleBudgetState>,
    kind: u32,
) -> (r: Vec<usize>)
    requires
        old(budgets)@.len() == rules@.len(),
    ensures
        (r@, final(budgets)@) == spec_sprite_choices(rules@, old(budgets)@, kind, 0),
{
    let ghost start = budgets@;
    let mut chosen: Vec<usize> = Vec::new();
    let mut i: usize = 0;
    while i < rules.len()
        invariant
            i <= rules@.len(),
            budgets@.len() == rules@.len(),
            spec_sprite_choices(rules@, start, kind, 0) == (
                chosen@ + spec_sprite_choices(rules@, budgets@, kind, i as nat).0,
                spec_sprite_choices(rules@, budgets@, kind, i as nat).1,
            ),
        decreases rules@.len() - i,
    {
        let rule = rules[i];
        if rule.object_type == kind {
            let ghost before = budgets@;
            let ghost chosen_before = chosen@;
            let mut state = budgets[i];
            let applies = consume_rule_budget(rule.spawn_stride, rule.max_instances, &mut state);
            budgets.set(i, state);
            if applies {
                chosen.push(i);
                proof {
                    let rest = spec_sprite_choices(rules@, budgets@, kind, (i + 1) as nat).0;
                    assert(chosen_before + (seq![i] + rest) =~= chosen@ + rest);
                }
            }
        }
        i = i + 1;
    }
    proof {
        assert(chosen@ + Seq::<usize>::empty() =~= chosen@);
    }
    chosen
}

/// Decides, for scene objects of the given types offered in order, which
/// override rule and which sprite rules each receives; see
/// [`spec_vfx_plan`].
pub fn plan_map_vfx(
    overrides: &Vec<VfxRuleBudget>,
    sprites: &Vec<VfxRuleBudget>,
    kinds: &Vec<u32>,
) -> (r: Vec<VfxObjectPlan>)
    ensures
        r@.map_values(|p: VfxObjectPlan| plan_view(p)) == spec_vfx_plan(
            overrides@,
            sprites@,
            kinds@,
        ).0,
{
    let mut override_budgets: Vec<RuleBudgetState> = Vec::new();
    let mut k: usize = 0;
    while k < overrides.len()
        invariant
            k <= overrides@.len(),
            override_budgets@ == Seq::new(k as nat, |i: int| fresh_budget()),
        decreases overrides@.len() - k,
    {
        override_budgets.push(RuleBudgetState { seen: 0, applied: 0 });
        k = k + 1;
        proof {
            assert(override_budgets@ =~= Seq::new(k as nat, |i: int| fresh_budget()));
        }
    }
    let mut sprite_budgets: Vec<RuleBudgetState> = Vec::new();
    let mut k: usize = 0;
    while k < sprites.len()
        invariant
            k <= sprites@.len(),
            sprite_budgets@ == Seq::new(k as nat, |i: int| fresh_budget()),
        decreases sprites@.len() - k,
    {
        sprite_budgets.push(RuleBudgetState { seen: 0, applied: 0 });
        k = k + 1;
        proof {
            assert(sprite_budgets@ =~= Seq::new(k as nat, |i: int| fresh_budget()));
        }
    }
    let mut plans: Vec<VfxObjectPlan> = Vec::new();
    let _ = overrides.len();
    let _ = sprites.len();
    let mut n: usize = 0;
    while n < kinds.len()
        invariant
            n <= kinds@.len(),
            plans@.len() == n,
            overrides@.len() <= usize::MAX,
            sprites@.len() <= usize::MAX,
            override_budgets@.len() == overrides@.len(),
            sprite_budgets@.len() == sprites@.len(),
            spec_vfx_plan(overrides@, sprites@, kinds@.take(n as int)) == (
                plans@.map_values(|p: VfxObjectPlan| plan_view(p)),
                override_budgets@,
                sprite_budgets@,
            ),
        decreases kinds@.len() - n,
    {
        proof {
            assert(kinds@.take(n + 1).drop_last() =~= kinds@.take(n as int));
            lemma_override_choice_len(overrides@, override_budgets@, kinds@[n as int], 0);
            lemma_sprite_choices_len(sprites@, sprite_budgets@, kinds@[n as int], 0);
        }
        let override_rule = override_choice(overrides, &mut override_budgets, kinds[n]);
        let sprite_rules = sprite_choices(sprites, &mut sprite_budgets, kinds[n]);
        let ghost before = plans@;
        plans.push(VfxObjectPlan { override_rule, sprite_rules });
        proof {
            assert(plans@.map_values(|p: VfxObjectPlan| plan_view(p)) =~= before.map_values(
                |p: VfxObjectPlan| plan_view(p),
            ).push(plan_view(plans@[n as int])));
        }
        n = n + 1;
    }
    proof {
        assert(kinds@.take(kinds@.len() as int) =~= kinds@);
    }
    plans
}


/// How many of the planned objects received override rule `k`.
pub open spec fn override_uses(plans: Seq<(Option<usize>, Seq<usize>)>, k: usize) -> nat
    decreases plans.len(),
{
    if plans.len() == 0 {
        0
    } else {
        override_uses(plans.drop_last(), k) + if plans.last().0 == Some(k) {
            1nat
        } else {
            0nat
        }
    }
}

/// How many of the planned objects received sprite rule `k`.
pub open spec fn sprite_uses(plans: Seq<(Option<usize>, Seq<usize>)>, k: usize) -> nat
    decreases plans.len(),
{
    if plans.len() == 0 {
        0
    } else {
        sprite_uses(plans.drop_last(), k) + if plans.last().1.contains(k) {
            1nat
        } else {
            0nat
        }
    }
}

proof fn lemma_override_choice_counts(
    rules: Seq<VfxRuleBudget>,
    budgets: Seq<RuleBudgetState>,
    kind: u32,
    i: nat,
    k: nat,
)
    requires
        budgets.len() == rules.len(),
        rules.len() <= usize::MAX,
        k < rules.len(),
    ensures
        k < i ==> spec_override_choice(rules, budgets, kind, i).1[k as int] == budgets[k as int]
            && spec_override_choice(rules, budgets, kind, i).0 != Some(k as usize),
        i <= k && rules[k as int].max_instances is Some && budgets[k as int].applied
            <= rules[k as int].max_instances->0 ==> {
            let after = spec_override_choice(rules, budgets, kind, i);
            &&& after.1[k as int].applied == budgets[k as int].applied + if after.0 == Some(
                k as usize,
            ) {
                1int
            } else {
                0int
            }
            &&& after.1[k as int].applied <= rules[k as int].max_instances->0
        },
    decreases rules.len() - i,
{
    if i < rules.len() {
        let (applies, next) = spec_consume_rule_budget(
            rules[i as int].spawn_stride,
            rules[i as int].max_instances,
            budgets[i as int],
        );
        if rules[i as int].object_type != kind {
            lemma_override_choice_counts(rules, budgets, kind, i + 1, k);
        } else {
            let updated = budgets.update(i as int, next);
            lemma_override_choice_counts(rules, updated, kind, i + 1, k);
            lemma_override_choice_len(rules, updated, kind, i + 1);
        }
    }
}

proof fn lemma_sprite_choices_counts(
    rules: Seq<VfxRuleBudget>,
    budgets: Seq<RuleBudgetState>,
    kind: u32,
    i: nat,
    k: nat,
)
    requires
        budgets.len() == rules.len(),
        rules.len() <= usize::MAX,
        k < rules.len(),
    ensures
        k < i ==> spec_sprite_choices(rules, budgets, kind, i).1[k as int] == budgets[k as int]
            && !spec_sprite_choices(rules, budgets, kind, i).0.contains(k as usize),
        i <= k && rules[k as int].max_instances is Some && budgets[k as int].applied
            <= rules[k as int].max_instances->0 ==> {
            let after = spec_sprite_choices(rules, budgets, kind, i);
            &&& after.1[k as int].applied == budgets[k as int].applied + if after.0.contains(
                k as usize,
            ) {
                1int
            } else {
                0int
            }
            &&& after.1[k as int].applied <= rules[k as int].max_instances->0
        },
    decreases rules.len() - i,
{
    if i < rules.len() {
        let (applies, next) = spec_consume_rule_budget(
            rules[i as int].spawn_stride,
            rules[i as int].max_instances,
            budgets[i as int],
        );
        if rules[i as int].object_type != kind {
            lemma_sprite_choices_counts(rules, budgets, kind, i + 1, k);
        } else {
            let updated = budgets.update(i as int, next);
            lemma_sprite_choices_counts(rules, updated, kind, i + 1, k);
            lemma_sprite_choices_len(rules, updated, kind, i + 1);
            let rest = spec_sprite_choices(rules, updated, kind, i + 1).0;
            let all = spec_sprite_choices(rules, budgets, kind, i).0;
            if applies {
                assert(all == seq![i as usize] + rest);
                if k != i {
                    assert(all.contains(k as usize) == rest.contains(k as usize)) by {
                        if all.contains(k as usize) {
                            let j = choose|j: int| 0 <= j < all.len() && all[j] == k as usize;
                            assert(j > 0);
                            assert(rest[j - 1] == k as usize);
                        }
                        if rest.contains(k as usize) {
                            let j = choose|j: int| 0 <= j < rest.len() && rest[j] == k as usize;
                            assert(all[j + 1] == k as usize);
                        }
                    }
                } else {
                    assert(all[0] == k as usize);
                }
            }
        }
    }
}

proof fn lemma_plan_override_uses(
    overrides: Seq<VfxRuleBudget>,
    sprites: Seq<VfxRuleBudget>,
    kinds: Seq<u32>,
    k: nat,
)
    requires
        overrides.len() <= usize::MAX,
        k < overrides.len(),
        overrides[k as int].max_instances is Some,
    ensures
        spec_vfx_plan(overrides, sprites, kinds).1.len() == overrides.len(),
        spec_vfx_plan(overrides, sprites, kinds).1[k as int].applied == override_uses(
            spec_vfx_plan(overrides, sprites, kinds).0,
            k as usize,
        ),
        spec_vfx_plan(overrides, sprites, kinds).1[k as int].applied
            <= overrides[k as int].max_instances->0,
    decreases kinds.len(),
{
    if kinds.len() > 0 {
        let earlier = kinds.drop_last();
        lemma_plan_override_uses(overrides, sprites, earlier, k);
        let (plans, budgets, sprite_budgets) = spec_vfx_plan(overrides, sprites, earlier);
        lemma_override_choice_len(overrides, budgets, kinds.last(), 0);
        lemma_override_choice_counts(overrides, budgets, kinds.last(), 0, k);
        let (chosen, after) = spec_override_choice(overrides, budgets, kinds.last(), 0);
        let (sprite_rules, sprite_after) = spec_sprite_choices(
            sprites,
            sprite_budgets,
            kinds.last(),
            0,
        );
        assert(plans.push((chosen, sprite_rules)).drop_last() =~= plans);
    }
}

proof fn lemma_plan_sprite_uses(
    overrides: Seq<VfxRuleBudget>,
    sprites: Seq<VfxRuleBudget>,
    kinds: Seq<u32>,
    k: nat,
)
    requires
        sprites.len() <= usize::MAX,
        k < sprites.len(),
        sprites[k as int].max_instances is Some,
    ensures
        spec_vfx_plan(overrides, sprites, kinds).2.len() == sprites.len(),
        spec_vfx_plan(overrides, sprites, kinds).2[k as int].applied == sprite_uses(
            spec_vfx_plan(overrides, sprites, kinds).0,
            k as usize,
        ),
        spec_vfx_plan(overrides, sprites, kinds).2[k as int].applied
            <= sprites[k as int].max_instances->0,
    decreases kinds.len(),
{
    if kinds.len() > 0 {
        let earlier = kinds.drop_last();
        lemma_plan_sprite_uses(overrides, sprites, earlier, k);
        let (plans, budgets, sprite_budgets) = spec_vfx_plan(overrides, sprites, earlier);
        lemma_sprite_choices_len(sprites, sprite_budgets, kinds.last(), 0);
        lemma_sprite_choices_counts(sprites, sprite_budgets, kinds.last(), 0, k);
        let (chosen, after) = spec_override_choice(overrides, budgets, kinds.last(), 0);
        let (sprite_rules, sprite_after) = spec_sprite_choices(
            sprites,
            sprite_budgets,
            kinds.last(),
            0,
        );
        assert(plans.push((chosen, sprite_rules)).drop_last() =~= plans);
    }
}

/// A rule with an instance cap is never given to more objects than its
/// cap, over any sequence of objects: for override rules and for sprite
/// rules alike.
pub proof fn lemma_vfx_plan_respects_caps(
    overrides: Seq<VfxRuleBudget>,
    sprites: Seq<VfxRuleBudget>,
    kinds: Seq<u32>,
)
    requires
        overrides.len() <= usize::MAX,
        sprites.len() <= usize::MAX,
    ensures
        forall|k: int|
            0 <= k < overrides.len() && (#[trigger] overrides[k]).max_instances is Some
                ==> override_uses(spec_vfx_plan(overrides, sprites, kinds).0, k as usize)
                <= overrides[k].max_instances->0,
        forall|k: int|
            0 <= k < sprites.len() && (#[trigger] sprites[k]).max_instances is Some
                ==> sprite_uses(spec_vfx_plan(overrides, sprites, kinds).0, k as usize)
                <= sprites[k].max_instances->0,
{
    assert forall|k: int|
        0 <= k < overrides.len() && (#[trigger] overrides[k]).max_instances is Some implies override_uses(
        spec_vfx_plan(overrides, sprites, kinds).0,
        k as usize,
    ) <= overrides[k].max_instances->0 by {
        lemma_plan_override_uses(overrides, sprites, kinds, k as nat);
    }
    assert forall|k: int|
        0 <= k < sprites.len() && (#[trigger] sprites[k]).max_instances is Some implies sprite_uses(
        spec_vfx_plan(overrides, sprites, kinds).0,
        k as usize,
    ) <= sprites[k].max_instances->0 by {
        lemma_plan_sprite_uses(overrides, sprites, kinds, k as nat);
    }
}


/// The pseudo-random step of a sprite's animation phase, from the index of
/// the object it is attached to and the rule's index: a linear congruential
/// step in 32-bit arithmetic, reduced to `0..10000`.
pub open spec fn spec_phase_seed(entity_index: u32, salt: u32) -> u32 {
    let product = (entity_index as int * 1103515245) % 0x1_0000_0000;
    ((((product + (12345u32 ^ salt) as int) % 0x1_0000_0000) % 10000) as u32)
}

/// Computes the phase step; see [`spec_phase_seed`].
pub fn phase_seed(entity_index: u32, salt: u32) -> (r: u32)
    ensures
        r == spec_phase_seed(entity_index, salt),
        r < 10000,
{
    let seed = entity_index.wrapping_mul(1103515245).wrapping_add(12345 ^ salt);
    seed % 10000
}

} // verus!
