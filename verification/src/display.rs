//! Diagnostic rendering of orders and their companion records.
//!
//! This is the one place the model exposes "is this field set" to a
//! human reader: an optional decimal field holding the sentinel renders
//! as a distinguishable marker, never like an explicit zero.
//! Programmatic callers compare against the sentinel constants directly.

use vstd::prelude::*;
use vstd::string::StringExecFns;
use crate::common::TagValue;
use crate::common::TagValueV;
use crate::common::tag_values_view;
use crate::fields::fixed_rep;
use crate::fields::int_rep;
use crate::fields::opt_double_rep;
use crate::fields::render_fixed;
use crate::fields::render_i32;
use crate::fields::render_opt_double;
use crate::order::Order;
use crate::order::OrderComboLeg;
use crate::order::OrderState;
use crate::order::OrderStateV;
use crate::order::OrderV;
use crate::order::SoftDollarTier;
use crate::order::SoftDollarTierV;
use crate::order_condition::OrderConditionEnum;
use crate::order_condition::OrderConditionEnumV;
use crate::order_condition::condition_fields;
use crate::order_condition::conditions_view;

verus! {

/// The word a flag renders as.
pub open spec fn bool_word(b: bool) -> Seq<char> {
    if b { "true"@ } else { "false"@ }
}

fn render_bool_word(b: bool) -> (s: &'static str)
    ensures
        s@ == bool_word(b),
{
    if b { "true" } else { "false" }
}

/// The parts joined with the separator between consecutive parts.
pub open spec fn join_with(parts: Seq<Seq<char>>, sep: Seq<char>) -> Seq<char>
    decreases parts.len(),
{
    if parts.len() == 0 {
        Seq::empty()
    } else if parts.len() == 1 {
        parts[0]
    } else {
        parts[0] + sep + join_with(parts.drop_first(), sep)
    }
}

/// Joining one more part appends the separator (after a nonempty join)
/// and then the part.
pub proof fn lemma_join_push(parts: Seq<Seq<char>>, sep: Seq<char>, x: Seq<char>)
    ensures
        parts.len() == 0 ==> join_with(parts.push(x), sep) == x,
        parts.len() > 0 ==> join_with(parts.push(x), sep) == join_with(parts, sep) + sep + x,
    decreases parts.len(),
{
    if parts.len() == 0 {
        assert(parts.push(x)[0] == x);
        assert(join_with(parts.push(x), sep) == x);
    } else if parts.len() == 1 {
        assert(parts.push(x).drop_first() =~= seq![x]);
        assert(join_with(seq![x], sep) == x);
        assert(parts.push(x)[0] == parts[0]);
        assert(join_with(parts.push(x), sep)
            == parts.push(x)[0] + sep + join_with(parts.push(x).drop_first(), sep));
        assert(join_with(parts, sep) == parts[0]);
    } else {
        assert(parts.push(x).drop_first() =~= parts.drop_first().push(x));
        lemma_join_push(parts.drop_first(), sep, x);
        assert(parts.push(x)[0] == parts[0]);
        assert(join_with(parts.push(x), sep)
            == parts.push(x)[0] + sep + join_with(parts.push(x).drop_first(), sep));
        assert(join_with(parts.push(x).drop_first(), sep)
            == join_with(parts.drop_first(), sep) + sep + x);
        assert((parts[0] + sep + (join_with(parts.drop_first(), sep) + sep + x))
            =~= ((parts[0] + sep + join_with(parts.drop_first(), sep)) + sep + x));
        assert(join_with(parts, sep) == parts[0] + sep + join_with(parts.drop_first(), sep));
    }
}

/// Each tag/value pair rendered as `tag = value`.
pub open spec fn tag_value_reps(s: Seq<TagValueV>) -> Seq<Seq<char>> {
    s.map_values(|t: TagValueV| t.tag + " = "@ + t.value)
}

/// Each combination leg rendered as its decimal price.
pub open spec fn combo_leg_reps(s: Seq<OrderComboLeg>) -> Seq<Seq<char>> {
    s.map_values(|l: OrderComboLeg| fixed_rep(l.price as int))
}

/// Each condition rendered as its serialized fields joined by commas and
/// closed with a bar.
pub open spec fn condition_reps(s: Seq<OrderConditionEnumV>) -> Seq<Seq<char>> {
    s.map_values(|c: OrderConditionEnumV| join_with(condition_fields(c), ","@) + "|"@)
}

/// The diagnostic rendering of an order: identifiers and core terms line
/// by line, the sentinel-aware limit price, then its algo parameters,
/// combination legs and serialized conditions.
pub open spec fn order_display(o: OrderV) -> Seq<char> {
    "order_id = "@ + int_rep(o.order_id as int)
    + "\nclient_id = "@ + int_rep(o.client_id as int)
    + "\nperm_id = "@ + int_rep(o.perm_id as int)
    + "\norder_type = "@ + o.order_type
    + "\naction = "@ + o.action
    + "\ntotal_quantity = "@ + fixed_rep(o.total_quantity as int)
    + "\nlmt_price = "@ + opt_double_rep(o.lmt_price as int)
    + "\ntif = "@ + o.tif
    + "\nwhat_if = "@ + bool_word(o.what_if)
    + "\nalgo_strategy = "@ + o.algo_strategy
    + "\nalgo_params = ("@ + join_with(tag_value_reps(o.algo_params), ","@)
    + ")\nCMB = ("@ + join_with(combo_leg_reps(o.order_combo_legs), ","@)
    + ")\nCOND = ("@ + join_with(condition_reps(o.conditions), Seq::empty())
    + ")"@
}

fn join_string_fields(fields: &Vec<String>) -> (r: String)
    ensures
        r@ == join_with(fields.deep_view(), ","@),
{
    let ghost parts = fields.deep_view();
    proof {
        assert(parts.len() == fields@.len());
    }
    let mut s = String::new();
    let mut i: usize = 0;
    while i < fields.len()
        invariant
            i <= fields@.len(),
            parts == fields.deep_view(),
            parts.len() == fields@.len(),
            s@ == join_with(parts.take(i as int), ","@),
        decreases fields@.len() - i,
    {
        if i > 0 {
            s.append(",");
        }
        s.append(fields[i].as_str());
        proof {
            lemma_join_push(parts.take(i as int), ","@, parts[i as int]);
            assert(parts.take(i as int).push(parts[i as int]) =~= parts.take(i + 1));
            assert(parts[i as int] == fields@[i as int]@);
        }
        i += 1;
    }
    proof {
        assert(parts.take(parts.len() as int) =~= parts);
    }
    s
}

fn join_tag_values(params: &Vec<TagValue>) -> (r: String)
    ensures
        r@ == join_with(tag_value_reps(tag_values_view(params@)), ","@),
{
    let ghost parts = tag_value_reps(tag_values_view(params@));
    let mut s = String::new();
    let mut i: usize = 0;
    while i < params.len()
        invariant
            i <= params@.len(),
            parts == tag_value_reps(tag_values_view(params@)),
            parts.len() == params@.len(),
            s@ == join_with(parts.take(i as int), ","@),
        decreases params@.len() - i,
    {
        if i > 0 {
            s.append(",");
        }
        s.append(params[i].tag.as_str());
        s.append(" = ");
        s.append(params[i].value.as_str());
        proof {
            lemma_join_push(parts.take(i as int), ","@, parts[i as int]);
            assert(parts.take(i as int).push(parts[i as int]) =~= parts.take(i + 1));
            assert(parts[i as int] =~= params@[i as int]@.tag + " = "@ + params@[i as int]@.value);
        }
        i += 1;
    }
    proof {
        assert(parts.take(parts.len() as int) =~= parts);
    }
    s
}

fn join_combo_legs(legs: &Vec<OrderComboLeg>) -> (r: String)
    ensures
        r@ == join_with(combo_leg_reps(legs@), ","@),
{
    let ghost parts = combo_leg_reps(legs@);
    let mut s = String::new();
    let mut i: usize = 0;
    while i < legs.len()
        invariant
            i <= legs@.len(),
            parts == combo_leg_reps(legs@),
            parts.len() == legs@.len(),
            s@ == join_with(parts.take(i as int), ","@),
        decreases legs@.len() - i,
    {
        if i > 0 {
            s.append(",");
        }
        let piece = render_fixed(legs[i].price);
        s.append(piece.as_str());
        proof {
            lemma_join_push(parts.take(i as int), ","@, parts[i as int]);
            assert(parts.take(i as int).push(parts[i as int]) =~= parts.take(i + 1));
            assert(parts[i as int] == fixed_rep(legs@[i as int].price as int));
        }
        i += 1;
    }
    proof {
        assert(parts.take(parts.len() as int) =~= parts);
    }
    s
}

fn join_conditions(conds: &Vec<OrderConditionEnum>) -> (r: String)
    ensures
        r@ == join_with(condition_reps(conditions_view(conds@)), Seq::empty()),
{
    let ghost parts = condition_reps(conditions_view(conds@));
    let mut s = String::new();
    let mut i: usize = 0;
    while i < conds.len()
        invariant
            i <= conds@.len(),
            parts == condition_reps(conditions_view(conds@)),
            parts.len() == conds@.len(),
            s@ == join_with(parts.take(i as int), Seq::empty()),
        decreases conds@.len() - i,
    {
        let fields = conds[i].make_fields();
        let joined = join_string_fields(&fields);
        s.append(joined.as_str());
        s.append("|");
        proof {
            lemma_join_push(parts.take(i as int), Seq::empty(), parts[i as int]);
            assert(parts.take(i as int).push(parts[i as int]) =~= parts.take(i + 1));
            assert(conditions_view(conds@)[i as int] == conds@[i as int]@);
            assert(parts[i as int] == join_with(condition_fields(conds@[i as int]@), ","@) + "|"@);
        }
        i += 1;
    }
    proof {
        assert(parts.take(parts.len() as int) =~= parts);
    }
    s
}

impl Order {
    /// Renders the order for diagnostics, line by line; unset decimal
    /// fields render as the distinguishable marker, never like an
    /// explicit zero.
    pub fn to_display_string(&self) -> (r: String)
        ensures
            r@ == order_display(self@),
    {
        let mut s = String::new();
        s.append("order_id = ");
        let f_order_id = render_i32(self.order_id);
        s.append(f_order_id.as_str());
        s.append("\nclient_id = ");
        let f_client_id = render_i32(self.client_id);
        s.append(f_client_id.as_str());
        s.append("\nperm_id = ");
        let f_perm_id = render_i32(self.perm_id);
        s.append(f_perm_id.as_str());
        s.append("\norder_type = ");
        s.append(self.order_type.as_str());
        s.append("\naction = ");
        s.append(self.action.as_str());
        s.append("\ntotal_quantity = ");
        let f_qty = render_fixed(self.total_quantity);
        s.append(f_qty.as_str());
        s.append("\nlmt_price = ");
        let f_lmt = render_opt_double(self.lmt_price);
        s.append(f_lmt.as_str());
        s.append("\ntif = ");
        s.append(self.tif.as_str());
        s.append("\nwhat_if = ");
        s.append(render_bool_word(self.what_if));
        s.append("\nalgo_strategy = ");
        s.append(self.algo_strategy.as_str());
        s.append("\nalgo_params = (");
        let f_params = join_tag_values(&self.algo_params);
        s.append(f_params.as_str());
        s.append(")\nCMB = (");
        let f_legs = join_combo_legs(&self.order_combo_legs);
        s.append(f_legs.as_str());
        s.append(")\nCOND = (");
        let f_conds = join_conditions(&self.conditions);
        s.append(f_conds.as_str());
        s.append(")");
        proof {
            assert(s@ =~= order_display(self@));
        }
        s
    }
}

/// The diagnostic rendering of a soft-dollar tier.
pub open spec fn soft_dollar_tier_display(t: SoftDollarTierV) -> Seq<char> {
    "name: "@ + t.name + "\nvalue: "@ + t.val + "\ndisplay_name: "@ + t.display_name
}

impl SoftDollarTier {
    /// Renders the tier for diagnostics.
    pub fn to_display_string(&self) -> (r: String)
        ensures
            r@ == soft_dollar_tier_display(self@),
    {
        let mut s = String::new();
        s.append("name: ");
        s.append(self.name.as_str());
        s.append("\nvalue: ");
        s.append(self.val.as_str());
        s.append("\ndisplay_name: ");
        s.append(self.display_name.as_str());
        proof {
            assert(s@ =~= soft_dollar_tier_display(self@));
        }
        s
    }
}

impl OrderComboLeg {
    /// Renders the leg's price for diagnostics.
    pub fn to_display_string(&self) -> (r: String)
        ensures
            r@ == fixed_rep(self.price as int),
    {
        render_fixed(self.price)
    }
}

/// The diagnostic rendering of an order-state snapshot: every field line
/// by line, with unreported commissions rendered as the distinguishable
/// marker.
pub open spec fn order_state_display(o: OrderStateV) -> Seq<char> {
    "status: "@ + o.status
    + "\ninit_margin_before: "@ + o.init_margin_before
    + "\nmaint_margin_before: "@ + o.maint_margin_before
    + "\nequity_with_loan_before: "@ + o.equity_with_loan_before
    + "\ninit_margin_change: "@ + o.init_margin_change
    + "\nmaint_margin_change: "@ + o.maint_margin_change
    + "\nequity_with_loan_change: "@ + o.equity_with_loan_change
    + "\ninit_margin_after: "@ + o.init_margin_after
    + "\nmaint_margin_after: "@ + o.maint_margin_after
    + "\nequity_with_loan_after: "@ + o.equity_with_loan_after
    + "\ncommission: "@ + opt_double_rep(o.commission as int)
    + "\nmin_commission: "@ + opt_double_rep(o.min_commission as int)
    + "\nmax_commission: "@ + opt_double_rep(o.max_commission as int)
    + "\ncommission_currency: "@ + o.commission_currency
    + "\nwarning_text: "@ + o.warning_text
    + "\ncompleted_time: "@ + o.completed_time
    + "\ncompleted_status: "@ + o.completed_status
}

impl OrderState {
    /// Renders the snapshot for diagnostics; unreported commissions
    /// render as the distinguishable marker, never like an explicit
    /// zero.
    pub fn to_display_string(&self) -> (r: String)
        ensures
            r@ == order_state_display(self@),
    {
        let mut s = String::new();
        s.append("status: ");
        s.append(self.status.as_str());
        s.append("\ninit_margin_before: ");
        s.append(self.init_margin_before.as_str());
        s.append("\nmaint_margin_before: ");
        s.append(self.maint_margin_before.as_str());
        s.append("\nequity_with_loan_before: ");
        s.append(self.equity_with_loan_before.as_str());
        s.append("\ninit_margin_change: ");
        s.append(self.init_margin_change.as_str());
        s.append("\nmaint_margin_change: ");
        s.append(self.maint_margin_change.as_str());
        s.append("\nequity_with_loan_change: ");
        s.append(self.equity_with_loan_change.as_str());
        s.append("\ninit_margin_after: ");
        s.append(self.init_margin_after.as_str());
        s.append("\nmaint_margin_after: ");
        s.append(self.maint_margin_after.as_str());
        s.append("\nequity_with_loan_after: ");
        s.append(self.equity_with_loan_after.as_str());
        s.append("\ncommission: ");
        let f_comm = render_opt_double(self.commission);
        s.append(f_comm.as_str());
        s.append("\nmin_commission: ");
        let f_min = render_opt_double(self.min_commission);
        s.append(f_min.as_str());
        s.append("\nmax_commission: ");
        let f_max = render_opt_double(self.max_commission);
        s.append(f_max.as_str());
        s.append("\ncommission_currency: ");
        s.append(self.commission_currency.as_str());
        s.append("\nwarning_text: ");
        s.append(self.warning_text.as_str());
        s.append("\ncompleted_time: ");
        s.append(self.completed_time.as_str());
        s.append("\ncompleted_status: ");
        s.append(self.completed_status.as_str());
        proof {
            assert(s@ =~= order_state_display(self@));
        }
        s
    }
}

} // verus!
