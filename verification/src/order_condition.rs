//! Trigger conditions that gate when an order may fire.
//!
//! A condition is one of a closed set of variants — price, time, margin,
//! execution, percent-change, volume — built by layering small shared
//! records: every variant embeds a base condition (discriminant tag and
//! conjunction flag), most add a comparison direction, and the
//! instrument-scoped ones add a contract id and exchange.  Each variant
//! serializes to an ordered list of string fields; the order is a wire
//! contract: tag, conjunction flag, contract scope if present, comparison
//! direction if present, then the variant's own payload.
//!
//! An order carries a sequence of conditions; each element's conjunction
//! flag states how it combines with the *next* element (AND when set, OR
//! when clear), and the last element's flag is ignored.

use vstd::prelude::*;
use vstd::string::StringExecFns;
use crate::fields::ParseError;
use crate::fields::bool_rep;
use crate::fields::conjunction_rep;
use crate::fields::fixed_rep;
use crate::fields::int_rep;
use crate::fields::parse_bool_res;
use crate::fields::parse_conjunction_res;
use crate::fields::parse_fixed_res;
use crate::fields::parse_i32_res;
use crate::fields::parse_i64_res;
use crate::fields::render_bool;
use crate::fields::render_conjunction;
use crate::fields::render_fixed;
use crate::fields::render_i32;
use crate::fields::parse_bool_field;
use crate::fields::parse_conjunction;
use crate::fields::parse_fixed;
use crate::fields::parse_i32;
use crate::fields::parse_i64;

verus! {

/// The discriminant of a trigger-condition variant.
#[derive(Clone, Copy, Debug, PartialEq, Eq, Structural)]
pub enum ConditionType {
    Price,
    Time,
    Margin,
    Execution,
    Volume,
    PercentChange,
}

/// The wire code of each condition variant.
pub open spec fn condition_type_code(t: ConditionType) -> int {
    match t {
        ConditionType::Price => 1,
        ConditionType::Time => 3,
        ConditionType::Margin => 4,
        ConditionType::Execution => 5,
        ConditionType::Volume => 6,
        ConditionType::PercentChange => 7,
    }
}

/// The condition variant a wire code denotes.
pub open spec fn condition_type_from_code_spec(c: int) -> Option<ConditionType> {
    if c == 1 { Option::Some(ConditionType::Price) }
    else if c == 3 { Option::Some(ConditionType::Time) }
    else if c == 4 { Option::Some(ConditionType::Margin) }
    else if c == 5 { Option::Some(ConditionType::Execution) }
    else if c == 6 { Option::Some(ConditionType::Volume) }
    else if c == 7 { Option::Some(ConditionType::PercentChange) }
    else { Option::None }
}

impl ConditionType {
    /// The wire code of this variant.
    pub fn code(self) -> (c: i32)
        ensures
            c as int == condition_type_code(self),
    {
        match self {
            ConditionType::Price => 1,
            ConditionType::Time => 3,
            ConditionType::Margin => 4,
            ConditionType::Execution => 5,
            ConditionType::Volume => 6,
            ConditionType::PercentChange => 7,
        }
    }

    /// The variant a wire code denotes, if any.
    pub fn from_code(c: i32) -> (r: Option<ConditionType>)
        ensures
            r == condition_type_from_code_spec(c as int),
    {
        if c == 1 { Some(ConditionType::Price) }
        else if c == 3 { Some(ConditionType::Time) }
        else if c == 4 { Some(ConditionType::Margin) }
        else if c == 5 { Some(ConditionType::Execution) }
        else if c == 6 { Some(ConditionType::Volume) }
        else if c == 7 { Some(ConditionType::PercentChange) }
        else { None }
    }
}

/// Every variant's code maps back to the variant.
pub proof fn lemma_condition_type_code_round_trip(t: ConditionType)
    ensures
        condition_type_from_code_spec(condition_type_code(t)) == Option::Some(t),
{
}

/// How a price condition samples the market price.
#[derive(Clone, Copy, Debug, PartialEq, Eq, Structural)]
pub enum TriggerMethod {
    Default,
    DoubleBidAsk,
    Last,
    DoubleLast,
    BidAsk,
    LastOrBidAsk,
    MidPoint,
}

/// The wire code of each trigger method.
pub open spec fn trigger_method_code(t: TriggerMethod) -> int {
    match t {
        TriggerMethod::Default => 0,
        TriggerMethod::DoubleBidAsk => 1,
        TriggerMethod::Last => 2,
        TriggerMethod::DoubleLast => 3,
        TriggerMethod::BidAsk => 4,
        TriggerMethod::LastOrBidAsk => 7,
        TriggerMethod::MidPoint => 8,
    }
}

/// The trigger method a wire code denotes.
pub open spec fn trigger_method_from_code_spec(c: int) -> Option<TriggerMethod> {
    if c == 0 { Option::Some(TriggerMethod::Default) }
    else if c == 1 { Option::Some(TriggerMethod::DoubleBidAsk) }
    else if c == 2 { Option::Some(TriggerMethod::Last) }
    else if c == 3 { Option::Some(TriggerMethod::DoubleLast) }
    else if c == 4 { Option::Some(TriggerMethod::BidAsk) }
    else if c == 7 { Option::Some(TriggerMethod::LastOrBidAsk) }
    else if c == 8 { Option::Some(TriggerMethod::MidPoint) }
    else { Option::None }
}

impl TriggerMethod {
    /// The wire code of this trigger method.
    pub fn code(self) -> (c: i32)
        ensures
            c as int == trigger_method_code(self),
    {
        match self {
            TriggerMethod::Default => 0,
            TriggerMethod::DoubleBidAsk => 1,
            TriggerMethod::Last => 2,
            TriggerMethod::DoubleLast => 3,
            TriggerMethod::BidAsk => 4,
            TriggerMethod::LastOrBidAsk => 7,
            TriggerMethod::MidPoint => 8,
        }
    }

    /// The trigger method a wire code denotes, if any.
    pub fn from_code(c: i32) -> (r: Option<TriggerMethod>)
        ensures
            r == trigger_method_from_code_spec(c as int),
    {
        if c == 0 { Some(TriggerMethod::Default) }
        else if c == 1 { Some(TriggerMethod::DoubleBidAsk) }
        else if c == 2 { Some(TriggerMethod::Last) }
        else if c == 3 { Some(TriggerMethod::DoubleLast) }
        else if c == 4 { Some(TriggerMethod::BidAsk) }
        else if c == 7 { Some(TriggerMethod::LastOrBidAsk) }
        else if c == 8 { Some(TriggerMethod::MidPoint) }
        else { None }
    }
}

/// Every trigger method's code maps back to the method.
pub proof fn lemma_trigger_method_code_round_trip(t: TriggerMethod)
    ensures
        trigger_method_from_code_spec(trigger_method_code(t)) == Option::Some(t),
{
}

/// The base every condition embeds: its discriminant tag and the flag
/// chaining it to the next condition of an order (AND when set, OR when
/// clear; ignored on the last condition).
#[derive(Clone, Copy, Debug, PartialEq, Eq, Structural)]
pub struct OrderCondition {
    pub cond_type: ConditionType,
    pub is_conjunction_connection: bool,
}

/// The operator layer: a comparison direction over the base condition
/// (`is_more` reads "above" for prices and volumes, "after" for times).
#[derive(Clone, Copy, Debug, PartialEq, Eq, Structural)]
pub struct OperatorCondition {
    pub order_condition: OrderCondition,
    pub is_more: bool,
}

/// The contract layer: an instrument scope (contract id and exchange) over
/// the operator layer.
#[derive(Clone, Debug)]
pub struct ContractCondition {
    pub operator_condition: OperatorCondition,
    pub con_id: i32,
    pub exchange: String,
}

/// Ghost image of a contract layer.
pub ghost struct ContractConditionV {
    pub operator_condition: OperatorCondition,
    pub con_id: i32,
    pub exchange: Seq<char>,
}

impl View for ContractCondition {
    type V = ContractConditionV;

    open spec fn view(&self) -> ContractConditionV {
        ContractConditionV {
            operator_condition: self.operator_condition,
            con_id: self.con_id,
            exchange: self.exchange@,
        }
    }
}

/// Fires when the scoped contract trades above or below a price, sampled
/// by the chosen trigger method.  The price counts ten-thousandths.
#[derive(Clone, Debug)]
pub struct PriceCondition {
    pub contract_condition: ContractCondition,
    pub price: i64,
    pub trigger_method: TriggerMethod,
}

/// Ghost image of a price condition.
pub ghost struct PriceConditionV {
    pub contract_condition: ContractConditionV,
    pub price: i64,
    pub trigger_method: TriggerMethod,
}

impl View for PriceCondition {
    type V = PriceConditionV;

    open spec fn view(&self) -> PriceConditionV {
        PriceConditionV {
            contract_condition: self.contract_condition@,
            price: self.price,
            trigger_method: self.trigger_method,
        }
    }
}

/// Fires before or after a venue-formatted time string (`is_more` reads
/// "after").
#[derive(Clone, Debug)]
pub struct TimeCondition {
    pub operator_condition: OperatorCondition,
    pub time: String,
}

/// Ghost image of a time condition.
pub ghost struct TimeConditionV {
    pub operator_condition: OperatorCondition,
    pub time: Seq<char>,
}

impl View for TimeCondition {
    type V = TimeConditionV;

    open spec fn view(&self) -> TimeConditionV {
        TimeConditionV { operator_condition: self.operator_condition, time: self.time@ }
    }
}

/// Fires when the account's margin cushion moves above or below a percent
/// value, counted in ten-thousandths of a percent point.
#[derive(Clone, Copy, Debug, PartialEq, Eq, Structural)]
pub struct MarginCondition {
    pub operator_condition: OperatorCondition,
    pub percent: i64,
}

/// Fires on an execution for the given symbol, security type and exchange;
/// the only variant without a comparison direction.
#[derive(Clone, Debug)]
pub struct ExecutionCondition {
    pub order_condition: OrderCondition,
    pub symbol: String,
    pub sec_type: String,
    pub exchange: String,
}

/// Ghost image of an execution condition.
pub ghost struct ExecutionConditionV {
    pub order_condition: OrderCondition,
    pub symbol: Seq<char>,
    pub sec_type: Seq<char>,
    pub exchange: Seq<char>,
}

impl View for ExecutionCondition {
    type V = ExecutionConditionV;

    open spec fn view(&self) -> ExecutionConditionV {
        ExecutionConditionV {
            order_condition: self.order_condition,
            symbol: self.symbol@,
            sec_type: self.sec_type@,
            exchange: self.exchange@,
        }
    }
}

/// Fires when the scoped contract's price changes by more or less than a
/// percentage against the last close, counted in ten-thousandths of a
/// percent point.
#[derive(Clone, Debug)]
pub struct PercentChangeCondition {
    pub contract_condition: ContractCondition,
    pub change_percent: i64,
}

/// Ghost image of a percent-change condition.
pub ghost struct PercentChangeConditionV {
    pub contract_condition: ContractConditionV,
    pub change_percent: i64,
}

impl View for PercentChangeCondition {
    type V = PercentChangeConditionV;

    open spec fn view(&self) -> PercentChangeConditionV {
        PercentChangeConditionV {
            contract_condition: self.contract_condition@,
            change_percent: self.change_percent,
        }
    }
}

/// Fires when the scoped contract's traded volume moves above or below the
/// given number of units.
#[derive(Clone, Debug)]
pub struct VolumeCondition {
    pub contract_condition: ContractCondition,
    pub volume: i32,
}

/// Ghost image of a volume condition.
pub ghost struct VolumeConditionV {
    pub contract_condition: ContractConditionV,
    pub volume: i32,
}

impl View for VolumeCondition {
    type V = VolumeConditionV;

    open spec fn view(&self) -> VolumeConditionV {
        VolumeConditionV { contract_condition: self.contract_condition@, volume: self.volume }
    }
}

/// A trigger condition: one of the closed set of variants.
#[derive(Clone, Debug)]
pub enum OrderConditionEnum {
    Price(PriceCondition),
    Time(TimeCondition),
    Margin(MarginCondition),
    Execution(ExecutionCondition),
    PercentChange(PercentChangeCondition),
    Volume(VolumeCondition),
}

/// Ghost image of a trigger condition.
pub ghost enum OrderConditionEnumV {
    Price(PriceConditionV),
    Time(TimeConditionV),
    Margin(MarginCondition),
    Execution(ExecutionConditionV),
    PercentChange(PercentChangeConditionV),
    Volume(VolumeConditionV),
}

impl View for OrderConditionEnum {
    type V = OrderConditionEnumV;

    open spec fn view(&self) -> OrderConditionEnumV {
        match self {
            OrderConditionEnum::Price(c) => OrderConditionEnumV::Price(c@),
            OrderConditionEnum::Time(c) => OrderConditionEnumV::Time(c@),
            OrderConditionEnum::Margin(c) => OrderConditionEnumV::Margin(*c),
            OrderConditionEnum::Execution(c) => OrderConditionEnumV::Execution(c@),
            OrderConditionEnum::PercentChange(c) => OrderConditionEnumV::PercentChange(c@),
            OrderConditionEnum::Volume(c) => OrderConditionEnumV::Volume(c@),
        }
    }
}

/// An empty condition of the given variant: flags clear, numbers zero,
/// strings empty, the price trigger method at its default; callers fill
/// the payload afterwards.
pub fn create_condition(cond_type: ConditionType) -> (r: OrderConditionEnum)
    ensures
        r@ == empty_condition(cond_type),
{
    let base = OrderCondition { cond_type, is_conjunction_connection: false };
    let op = OperatorCondition { order_condition: base, is_more: false };
    match cond_type {
        ConditionType::Price => OrderConditionEnum::Price(PriceCondition {
            contract_condition: ContractCondition {
                operator_condition: op,
                con_id: 0,
                exchange: String::new(),
            },
            price: 0,
            trigger_method: TriggerMethod::Default,
        }),
        ConditionType::Time => OrderConditionEnum::Time(TimeCondition {
            operator_condition: op,
            time: String::new(),
        }),
        ConditionType::Margin => OrderConditionEnum::Margin(MarginCondition {
            operator_condition: op,
            percent: 0,
        }),
        ConditionType::Execution => OrderConditionEnum::Execution(ExecutionCondition {
            order_condition: base,
            symbol: String::new(),
            sec_type: String::new(),
            exchange: String::new(),
        }),
        ConditionType::PercentChange => OrderConditionEnum::PercentChange(PercentChangeCondition {
            contract_condition: ContractCondition {
                operator_condition: op,
                con_id: 0,
                exchange: String::new(),
            },
            change_percent: 0,
        }),
        ConditionType::Volume => OrderConditionEnum::Volume(VolumeCondition {
            contract_condition: ContractCondition {
                operator_condition: op,
                con_id: 0,
                exchange: String::new(),
            },
            volume: 0,
        }),
    }
}

/// The value `create_condition` yields for each variant.
pub open spec fn empty_condition(cond_type: ConditionType) -> OrderConditionEnumV {
    let base = OrderCondition { cond_type, is_conjunction_connection: false };
    let op = OperatorCondition { order_condition: base, is_more: false };
    match cond_type {
        ConditionType::Price => OrderConditionEnumV::Price(PriceConditionV {
            contract_condition: ContractConditionV {
                operator_condition: op,
                con_id: 0,
                exchange: Seq::empty(),
            },
            price: 0,
            trigger_method: TriggerMethod::Default,
        }),
        ConditionType::Time => OrderConditionEnumV::Time(TimeConditionV {
            operator_condition: op,
            time: Seq::empty(),
        }),
        ConditionType::Margin => OrderConditionEnumV::Margin(MarginCondition {
            operator_condition: op,
            percent: 0,
        }),
        ConditionType::Execution => OrderConditionEnumV::Execution(ExecutionConditionV {
            order_condition: base,
            symbol: Seq::empty(),
            sec_type: Seq::empty(),
            exchange: Seq::empty(),
        }),
        ConditionType::PercentChange => OrderConditionEnumV::PercentChange(PercentChangeConditionV {
            contract_condition: ContractConditionV {
                operator_condition: op,
                con_id: 0,
                exchange: Seq::empty(),
            },
            change_percent: 0,
        }),
        ConditionType::Volume => OrderConditionEnumV::Volume(VolumeConditionV {
            contract_condition: ContractConditionV {
                operator_condition: op,
                con_id: 0,
                exchange: Seq::empty(),
            },
            volume: 0,
        }),
    }
}

/// The serialized field list of a price condition.
pub open spec fn price_condition_fields(c: PriceConditionV) -> Seq<Seq<char>> {
    seq![
        int_rep(condition_type_code(ConditionType::Price)),
        conjunction_rep(c.contract_condition.operator_condition.order_condition.is_conjunction_connection),
        int_rep(c.contract_condition.con_id as int),
        c.contract_condition.exchange,
        bool_rep(c.contract_condition.operator_condition.is_more),
        fixed_rep(c.price as int),
        int_rep(trigger_method_code(c.trigger_method)),
    ]
}

/// The serialized field list of a time condition.
pub open spec fn time_condition_fields(c: TimeConditionV) -> Seq<Seq<char>> {
    seq![
        int_rep(condition_type_code(ConditionType::Time)),
        conjunction_rep(c.operator_condition.order_condition.is_conjunction_connection),
        bool_rep(c.operator_condition.is_more),
        c.time,
    ]
}

/// The serialized field list of a margin condition.
pub open spec fn margin_condition_fields(c: MarginCondition) -> Seq<Seq<char>> {
    seq![
        int_rep(condition_type_code(ConditionType::Margin)),
        conjunction_rep(c.operator_condition.order_condition.is_conjunction_connection),
        bool_rep(c.operator_condition.is_more),
        fixed_rep(c.percent as int),
    ]
}

/// The serialized field list of an execution condition.
pub open spec fn execution_condition_fields(c: ExecutionConditionV) -> Seq<Seq<char>> {
    seq![
        int_rep(condition_type_code(ConditionType::Execution)),
        conjunction_rep(c.order_condition.is_conjunction_connection),
        c.symbol,
        c.sec_type,
        c.exchange,
    ]
}

/// The serialized field list of a percent-change condition.
pub open spec fn percent_change_condition_fields(c: PercentChangeConditionV) -> Seq<Seq<char>> {
    seq![
        int_rep(condition_type_code(ConditionType::PercentChange)),
        conjunction_rep(c.contract_condition.operator_condition.order_condition.is_conjunction_connection),
        int_rep(c.contract_condition.con_id as int),
        c.contract_condition.exchange,
        bool_rep(c.contract_condition.operator_condition.is_more),
        fixed_rep(c.change_percent as int),
    ]
}

/// The serialized field list of a volume condition.
pub open spec fn volume_condition_fields(c: VolumeConditionV) -> Seq<Seq<char>> {
    seq![
        int_rep(condition_type_code(ConditionType::Volume)),
        conjunction_rep(c.contract_condition.operator_condition.order_condition.is_conjunction_connection),
        int_rep(c.contract_condition.con_id as int),
        c.contract_condition.exchange,
        bool_rep(c.contract_condition.operator_condition.is_more),
        int_rep(c.volume as int),
    ]
}

/// The serialized field list of any condition.
pub open spec fn condition_fields(c: OrderConditionEnumV) -> Seq<Seq<char>> {
    match c {
        OrderConditionEnumV::Price(p) => price_condition_fields(p),
        OrderConditionEnumV::Time(t) => time_condition_fields(t),
        OrderConditionEnumV::Margin(m) => margin_condition_fields(m),
        OrderConditionEnumV::Execution(e) => execution_condition_fields(e),
        OrderConditionEnumV::PercentChange(p) => percent_change_condition_fields(p),
        OrderConditionEnumV::Volume(v) => volume_condition_fields(v),
    }
}

impl PriceCondition {
    /// Serializes this condition into its ordered field list.
    pub fn make_fields(&self) -> (r: Vec<String>)
        ensures
            r.deep_view() == price_condition_fields(self@),
    {
        let mut r: Vec<String> = Vec::new();
        r.push(render_i32(ConditionType::Price.code()));
        r.push(render_conjunction(
            self.contract_condition.operator_condition.order_condition.is_conjunction_connection,
        ));
        r.push(render_i32(self.contract_condition.con_id));
        r.push(self.contract_condition.exchange.clone());
        r.push(render_bool(self.contract_condition.operator_condition.is_more));
        r.push(render_fixed(self.price));
        r.push(render_i32(self.trigger_method.code()));
        proof {
            assert(r.deep_view() =~= price_condition_fields(self@));
        }
        r
    }
}

impl TimeCondition {
    /// Serializes this condition into its ordered field list.
    pub fn make_fields(&self) -> (r: Vec<String>)
        ensures
            r.deep_view() == time_condition_fields(self@),
    {
        let mut r: Vec<String> = Vec::new();
        r.push(render_i32(ConditionType::Time.code()));
        r.push(render_conjunction(self.operator_condition.order_condition.is_conjunction_connection));
        r.push(render_bool(self.operator_condition.is_more));
        r.push(self.time.clone());
        proof {
            assert(r.deep_view() =~= time_condition_fields(self@));
        }
        r
    }
}

impl MarginCondition {
    /// Serializes this condition into its ordered field list.
    pub fn make_fields(&self) -> (r: Vec<String>)
        ensures
            r.deep_view() == margin_condition_fields(*self),
    {
        let mut r: Vec<String> = Vec::new();
        r.push(render_i32(ConditionType::Margin.code()));
        r.push(render_conjunction(self.operator_condition.order_condition.is_conjunction_connection));
        r.push(render_bool(self.operator_condition.is_more));
        r.push(render_fixed(self.percent));
        proof {
            assert(r.deep_view() =~= margin_condition_fields(*self));
        }
        r
    }
}

impl ExecutionCondition {
    /// Serializes this condition into its ordered field list.
    pub fn make_fields(&self) -> (r: Vec<String>)
        ensures
            r.deep_view() == execution_condition_fields(self@),
    {
        let mut r: Vec<String> = Vec::new();
        r.push(render_i32(ConditionType::Execution.code()));
        r.push(render_conjunction(self.order_condition.is_conjunction_connection));
        r.push(self.symbol.clone());
        r.push(self.sec_type.clone());
        r.push(self.exchange.clone());
        proof {
            assert(r.deep_view() =~= execution_condition_fields(self@));
        }
        r
    }
}

impl PercentChangeCondition {
    /// Serializes this condition into its ordered field list.
    pub fn make_fields(&self) -> (r: Vec<String>)
        ensures
            r.deep_view() == percent_change_condition_fields(self@),
    {
        let mut r: Vec<String> = Vec::new();
        r.push(render_i32(ConditionType::PercentChange.code()));
        r.push(render_conjunction(
            self.contract_condition.operator_condition.order_condition.is_conjunction_connection,
        ));
        r.push(render_i32(self.contract_condition.con_id));
        r.push(self.contract_condition.exchange.clone());
        r.push(render_bool(self.contract_condition.operator_condition.is_more));
        r.push(render_fixed(self.change_percent));
        proof {
            assert(r.deep_view() =~= percent_change_condition_fields(self@));
        }
        r
    }
}

impl VolumeCondition {
    /// Serializes this condition into its ordered field list.
    pub fn make_fields(&self) -> (r: Vec<String>)
        ensures
            r.deep_view() == volume_condition_fields(self@),
    {
        let mut r: Vec<String> = Vec::new();
        r.push(render_i32(ConditionType::Volume.code()));
        r.push(render_conjunction(
            self.contract_condition.operator_condition.order_condition.is_conjunction_connection,
        ));
        r.push(render_i32(self.contract_condition.con_id));
        r.push(self.contract_condition.exchange.clone());
        r.push(render_bool(self.contract_condition.operator_condition.is_more));
        r.push(render_i32(self.volume));
        proof {
            assert(r.deep_view() =~= volume_condition_fields(self@));
        }
        r
    }
}

impl OrderConditionEnum {
    /// Serializes any condition into its ordered field list: tag,
    /// conjunction flag, contract scope if present, comparison direction
    /// if present, then the variant's payload.
    pub fn make_fields(&self) -> (r: Vec<String>)
        ensures
            r.deep_view() == condition_fields(self@),
    {
        match self {
            OrderConditionEnum::Price(c) => c.make_fields(),
            OrderConditionEnum::Time(c) => c.make_fields(),
            OrderConditionEnum::Margin(c) => c.make_fields(),
            OrderConditionEnum::Execution(c) => c.make_fields(),
            OrderConditionEnum::PercentChange(c) => c.make_fields(),
            OrderConditionEnum::Volume(c) => c.make_fields(),
        }
    }
}

/// The view of a condition list, element by element.
pub open spec fn conditions_view(s: Seq<OrderConditionEnum>) -> Seq<OrderConditionEnumV> {
    s.map_values(|c: OrderConditionEnum| c@)
}

/// A condition value is well formed when its embedded discriminant tag
/// matches its variant; every builder establishes this.
pub open spec fn condition_wf(c: OrderConditionEnumV) -> bool {
    match c {
        OrderConditionEnumV::Price(p) =>
            p.contract_condition.operator_condition.order_condition.cond_type == ConditionType::Price,
        OrderConditionEnumV::Time(t) =>
            t.operator_condition.order_condition.cond_type == ConditionType::Time,
        OrderConditionEnumV::Margin(m) =>
            m.operator_condition.order_condition.cond_type == ConditionType::Margin,
        OrderConditionEnumV::Execution(e) =>
            e.order_condition.cond_type == ConditionType::Execution,
        OrderConditionEnumV::PercentChange(p) =>
            p.contract_condition.operator_condition.order_condition.cond_type == ConditionType::PercentChange,
        OrderConditionEnumV::Volume(v) =>
            v.contract_condition.operator_condition.order_condition.cond_type == ConditionType::Volume,
    }
}

/// The condition a price field list denotes, given its conjunction flag.
pub open spec fn parse_price_fields_spec(fs: Seq<Seq<char>>, conj: bool) -> Result<OrderConditionEnumV, ParseError> {
    if fs.len() != 7 {
        Result::Err(ParseError::Malformed)
    } else {
        match parse_i32_res(fs[2]) {
            Result::Err(e) => Result::Err(e),
            Result::Ok(con_id) => match parse_bool_res(fs[4]) {
                Result::Err(e) => Result::Err(e),
                Result::Ok(is_more) => match parse_fixed_res(fs[5]) {
                    Result::Err(e) => Result::Err(e),
                    Result::Ok(price) => match parse_i32_res(fs[6]) {
                        Result::Err(e) => Result::Err(e),
                        Result::Ok(tc) => match trigger_method_from_code_spec(tc as int) {
                            Option::None => Result::Err(ParseError::Malformed),
                            Option::Some(tm) => Result::Ok(OrderConditionEnumV::Price(PriceConditionV {
                                contract_condition: ContractConditionV {
                                    operator_condition: OperatorCondition {
                                        order_condition: OrderCondition {
                                            cond_type: ConditionType::Price,
                                            is_conjunction_connection: conj,
                                        },
                                        is_more,
                                    },
                                    con_id,
                                    exchange: fs[3],
                                },
                                price,
                                trigger_method: tm,
                            })),
                        },
                    },
                },
            },
        }
    }
}

/// The condition a time field list denotes, given its conjunction flag.
pub open spec fn parse_time_fields_spec(fs: Seq<Seq<char>>, conj: bool) -> Result<OrderConditionEnumV, ParseError> {
    if fs.len() != 4 {
        Result::Err(ParseError::Malformed)
    } else {
        match parse_bool_res(fs[2]) {
            Result::Err(e) => Result::Err(e),
            Result::Ok(is_more) => Result::Ok(OrderConditionEnumV::Time(TimeConditionV {
                operator_condition: OperatorCondition {
                    order_condition: OrderCondition {
                        cond_type: ConditionType::Time,
                        is_conjunction_connection: conj,
                    },
                    is_more,
                },
                time: fs[3],
            })),
        }
    }
}

/// The condition a margin field list denotes, given its conjunction flag.
pub open spec fn parse_margin_fields_spec(fs: Seq<Seq<char>>, conj: bool) -> Result<OrderConditionEnumV, ParseError> {
    if fs.len() != 4 {
        Result::Err(ParseError::Malformed)
    } else {
        match parse_bool_res(fs[2]) {
            Result::Err(e) => Result::Err(e),
            Result::Ok(is_more) => match parse_fixed_res(fs[3]) {
                Result::Err(e) => Result::Err(e),
                Result::Ok(percent) => Result::Ok(OrderConditionEnumV::Margin(MarginCondition {
                    operator_condition: OperatorCondition {
                        order_condition: OrderCondition {
                            cond_type: ConditionType::Margin,
                            is_conjunction_connection: conj,
                        },
                        is_more,
                    },
                    percent,
                })),
            },
        }
    }
}

/// The condition an execution field list denotes, given its conjunction
/// flag.
pub open spec fn parse_execution_fields_spec(fs: Seq<Seq<char>>, conj: bool) -> Result<OrderConditionEnumV, ParseError> {
    if fs.len() != 5 {
        Result::Err(ParseError::Malformed)
    } else {
        Result::Ok(OrderConditionEnumV::Execution(ExecutionConditionV {
            order_condition: OrderCondition {
                cond_type: ConditionType::Execution,
                is_conjunction_connection: conj,
            },
            symbol: fs[2],
            sec_type: fs[3],
            exchange: fs[4],
        }))
    }
}

/// The condition a percent-change field list denotes, given its
/// conjunction flag.
pub open spec fn parse_percent_change_fields_spec(fs: Seq<Seq<char>>, conj: bool) -> Result<OrderConditionEnumV, ParseError> {
    if fs.len() != 6 {
        Result::Err(ParseError::Malformed)
    } else {
        match parse_i32_res(fs[2]) {
            Result::Err(e) => Result::Err(e),
            Result::Ok(con_id) => match parse_bool_res(fs[4]) {
                Result::Err(e) => Result::Err(e),
                Result::Ok(is_more) => match parse_fixed_res(fs[5]) {
                    Result::Err(e) => Result::Err(e),
                    Result::Ok(change_percent) => Result::Ok(OrderConditionEnumV::PercentChange(PercentChangeConditionV {
                        contract_condition: ContractConditionV {
                            operator_condition: OperatorCondition {
                                order_condition: OrderCondition {
                                    cond_type: ConditionType::PercentChange,
                                    is_conjunction_connection: conj,
                                },
                                is_more,
                            },
                            con_id,
                            exchange: fs[3],
                        },
                        change_percent,
                    })),
                },
            },
        }
    }
}

/// The condition a volume field list denotes, given its conjunction flag.
pub open spec fn parse_volume_fields_spec(fs: Seq<Seq<char>>, conj: bool) -> Result<OrderConditionEnumV, ParseError> {
    if fs.len() != 6 {
        Result::Err(ParseError::Malformed)
    } else {
        match parse_i32_res(fs[2]) {
            Result::Err(e) => Result::Err(e),
            Result::Ok(con_id) => match parse_bool_res(fs[4]) {
                Result::Err(e) => Result::Err(e),
                Result::Ok(is_more) => match parse_i32_res(fs[5]) {
                    Result::Err(e) => Result::Err(e),
                    Result::Ok(volume) => Result::Ok(OrderConditionEnumV::Volume(VolumeConditionV {
                        contract_condition: ContractConditionV {
                            operator_condition: OperatorCondition {
                                order_condition: OrderCondition {
                                    cond_type: ConditionType::Volume,
                                    is_conjunction_connection: conj,
                                },
                                is_more,
                            },
                            con_id,
                            exchange: fs[3],
                        },
                        volume,
                    })),
                },
            },
        }
    }
}

/// The condition any serialized field list denotes: the tag picks the
/// variant, the second field its conjunction flag, and the remaining
/// fields the variant's payload.
pub open spec fn parse_condition_spec(fs: Seq<Seq<char>>) -> Result<OrderConditionEnumV, ParseError> {
    if fs.len() < 2 {
        Result::Err(ParseError::Malformed)
    } else {
        match parse_i32_res(fs[0]) {
            Result::Err(e) => Result::Err(e),
            Result::Ok(code) => match condition_type_from_code_spec(code as int) {
                Option::None => Result::Err(ParseError::Malformed),
                Option::Some(t) => match parse_conjunction_res(fs[1]) {
                    Result::Err(e) => Result::Err(e),
                    Result::Ok(conj) => match t {
                        ConditionType::Price => parse_price_fields_spec(fs, conj),
                        ConditionType::Time => parse_time_fields_spec(fs, conj),
                        ConditionType::Margin => parse_margin_fields_spec(fs, conj),
                        ConditionType::Execution => parse_execution_fields_spec(fs, conj),
                        ConditionType::PercentChange => parse_percent_change_fields_spec(fs, conj),
                        ConditionType::Volume => parse_volume_fields_spec(fs, conj),
                    },
                },
            },
        }
    }
}

/// Parses a serialized condition field list back into a condition: the
/// inverse of `make_fields`.  A list that matches no variant's layout is
/// rejected as malformed; a numeric field too large for its type is
/// rejected as out of range.
#[verifier::rlimit(50)]
pub fn parse_condition_fields(fields: &Vec<String>) -> (r: Result<OrderConditionEnum, ParseError>)
    ensures
        match parse_condition_spec(fields.deep_view()) {
            Result::Ok(v) => r matches Ok(c) && c@ == v,
            Result::Err(e) => r matches Err(e2) && e2 == e,
        },
{
    let ghost fs = fields.deep_view();
    proof {
        assert(fs.len() == fields@.len());
        assert forall|i: int| 0 <= i < fs.len() implies #[trigger] fs[i] == fields@[i]@ by {
        }
    }
    if fields.len() < 2 {
        return Err(ParseError::Malformed);
    }
    let code = match parse_i32(fields[0].as_str()) {
        Ok(c) => c,
        Err(e) => return Err(e),
    };
    let t = match ConditionType::from_code(code) {
        Some(t) => t,
        None => return Err(ParseError::Malformed),
    };
    let conj = match parse_conjunction(fields[1].as_str()) {
        Ok(b) => b,
        Err(e) => return Err(e),
    };
    let base = OrderCondition { cond_type: t, is_conjunction_connection: conj };
    match t {
        ConditionType::Price => {
            if fields.len() != 7 {
                return Err(ParseError::Malformed);
            }
            let con_id = match parse_i32(fields[2].as_str()) {
                Ok(v) => v,
                Err(e) => return Err(e),
            };
            let is_more = match parse_bool_field(fields[4].as_str()) {
                Ok(v) => v,
                Err(e) => return Err(e),
            };
            let price = match parse_fixed(fields[5].as_str()) {
                Ok(v) => v,
                Err(e) => return Err(e),
            };
            let tc = match parse_i32(fields[6].as_str()) {
                Ok(v) => v,
                Err(e) => return Err(e),
            };
            let tm = match TriggerMethod::from_code(tc) {
                Some(m) => m,
                None => return Err(ParseError::Malformed),
            };
            Ok(OrderConditionEnum::Price(PriceCondition {
                contract_condition: ContractCondition {
                    operator_condition: OperatorCondition { order_condition: base, is_more },
                    con_id,
                    exchange: fields[3].clone(),
                },
                price,
                trigger_method: tm,
            }))
        },
        ConditionType::Time => {
            if fields.len() != 4 {
                return Err(ParseError::Malformed);
            }
            let is_more = match parse_bool_field(fields[2].as_str()) {
                Ok(v) => v,
                Err(e) => return Err(e),
            };
            Ok(OrderConditionEnum::Time(TimeCondition {
                operator_condition: OperatorCondition { order_condition: base, is_more },
                time: fields[3].clone(),
            }))
        },
        ConditionType::Margin => {
            if fields.len() != 4 {
                return Err(ParseError::Malformed);
            }
            let is_more = match parse_bool_field(fields[2].as_str()) {
                Ok(v) => v,
                Err(e) => return Err(e),
            };
            let percent = match parse_fixed(fields[3].as_str()) {
                Ok(v) => v,
                Err(e) => return Err(e),
            };
            Ok(OrderConditionEnum::Margin(MarginCondition {
                operator_condition: OperatorCondition { order_condition: base, is_more },
                percent,
            }))
        },
        ConditionType::Execution => {
            if fields.len() != 5 {
                return Err(ParseError::Malformed);
            }
            Ok(OrderConditionEnum::Execution(ExecutionCondition {
                order_condition: base,
                symbol: fields[2].clone(),
                sec_type: fields[3].clone(),
                exchange: fields[4].clone(),
            }))
        },
        ConditionType::PercentChange => {
            if fields.len() != 6 {
                return Err(ParseError::Malformed);
            }
            let con_id = match parse_i32(fields[2].as_str()) {
                Ok(v) => v,
                Err(e) => return Err(e),
            };
            let is_more = match parse_bool_field(fields[4].as_str()) {
                Ok(v) => v,
                Err(e) => return Err(e),
            };
            let change_percent = match parse_fixed(fields[5].as_str()) {
                Ok(v) => v,
                Err(e) => return Err(e),
            };
            Ok(OrderConditionEnum::PercentChange(PercentChangeCondition {
                contract_condition: ContractCondition {
                    operator_condition: OperatorCondition { order_condition: base, is_more },
                    con_id,
                    exchange: fields[3].clone(),
                },
                change_percent,
            }))
        },
        ConditionType::Volume => {
            if fields.len() != 6 {
                return Err(ParseError::Malformed);
            }
            let con_id = match parse_i32(fields[2].as_str()) {
                Ok(v) => v,
                Err(e) => return Err(e),
            };
            let is_more = match parse_bool_field(fields[4].as_str()) {
                Ok(v) => v,
                Err(e) => return Err(e),
            };
            let volume = match parse_i32(fields[5].as_str()) {
                Ok(v) => v,
                Err(e) => return Err(e),
            };
            Ok(OrderConditionEnum::Volume(VolumeCondition {
                contract_condition: ContractCondition {
                    operator_condition: OperatorCondition { order_condition: base, is_more },
                    con_id,
                    exchange: fields[3].clone(),
                },
                volume,
            }))
        },
    }
}

/// Chain round trip: serializing any well-formed condition and parsing
/// the field list back yields the same condition — in particular the
/// conjunction field decodes back to the conjunction flag and the
/// comparison field to the comparison direction it was built with.
pub proof fn lemma_condition_round_trip(c: OrderConditionEnumV)
    requires
        condition_wf(c),
    ensures
        parse_condition_spec(condition_fields(c)) == Result::<OrderConditionEnumV, ParseError>::Ok(c),
{
    match c {
        OrderConditionEnumV::Price(p) => {
            let fs = price_condition_fields(p);
            crate::fields::lemma_int_round_trip(1);
            crate::fields::lemma_conjunction_round_trip(
                p.contract_condition.operator_condition.order_condition.is_conjunction_connection,
            );
            crate::fields::lemma_int_round_trip(p.contract_condition.con_id as int);
            crate::fields::lemma_bool_round_trip(p.contract_condition.operator_condition.is_more);
            crate::fields::lemma_fixed_round_trip(p.price as int);
            crate::fields::lemma_int_round_trip(trigger_method_code(p.trigger_method));
            lemma_trigger_method_code_round_trip(p.trigger_method);
        },
        OrderConditionEnumV::Time(t) => {
            crate::fields::lemma_int_round_trip(3);
            crate::fields::lemma_conjunction_round_trip(
                t.operator_condition.order_condition.is_conjunction_connection,
            );
            crate::fields::lemma_bool_round_trip(t.operator_condition.is_more);
        },
        OrderConditionEnumV::Margin(m) => {
            crate::fields::lemma_int_round_trip(4);
            crate::fields::lemma_conjunction_round_trip(
                m.operator_condition.order_condition.is_conjunction_connection,
            );
            crate::fields::lemma_bool_round_trip(m.operator_condition.is_more);
            crate::fields::lemma_fixed_round_trip(m.percent as int);
        },
        OrderConditionEnumV::Execution(e) => {
            crate::fields::lemma_int_round_trip(5);
            crate::fields::lemma_conjunction_round_trip(e.order_condition.is_conjunction_connection);
        },
        OrderConditionEnumV::PercentChange(p) => {
            crate::fields::lemma_int_round_trip(7);
            crate::fields::lemma_conjunction_round_trip(
                p.contract_condition.operator_condition.order_condition.is_conjunction_connection,
            );
            crate::fields::lemma_int_round_trip(p.contract_condition.con_id as int);
            crate::fields::lemma_bool_round_trip(p.contract_condition.operator_condition.is_more);
            crate::fields::lemma_fixed_round_trip(p.change_percent as int);
        },
        OrderConditionEnumV::Volume(v) => {
            crate::fields::lemma_int_round_trip(6);
            crate::fields::lemma_conjunction_round_trip(
                v.contract_condition.operator_condition.order_condition.is_conjunction_connection,
            );
            crate::fields::lemma_int_round_trip(v.contract_condition.con_id as int);
            crate::fields::lemma_bool_round_trip(v.contract_condition.operator_condition.is_more);
            crate::fields::lemma_int_round_trip(v.volume as int);
        },
    }
}

} // verus!
