//! Price intervals: the periods of time for which a price bills on a
//! subscription, and the request that adds adjustments to them.

use crate::client::{path_text, Client, Method, Request};
use crate::error::{EncodeError, Field};
use crate::json::{
    array, array_text, has_key, is_number, is_number_text, is_quoted, lemma_quoted_is_no_number,
    object, object_text, quote, string_literal, texts, Member,
};
use crate::timestamp::Timestamp;
use vstd::prelude::*;
use vstd::string::*;

verus! {

/// A new adjustment to be applied to a subscription.
#[derive(Debug, Clone, PartialEq)]
pub enum NewAdjustment<'a> {
    /// A discount by a share of the price.
    PercentageDiscount {
        /// The identifiers of the prices to which this discount applies.
        applies_to_price_ids: Vec<&'a str>,
        /// The share to take off, as a decimal number in JSON notation:
        /// `0.1` for 10%.
        percentage_discount: String,
    },
    /// A discount by a fixed amount.
    AmountDiscount {
        /// The identifiers of the prices to which this discount applies.
        applies_to_price_ids: Vec<&'a str>,
        /// The amount to take off, as a decimal string such as `10.00`.
        amount_discount: &'a str,
    },
}

/// The mathematical value of a [`NewAdjustment`].
pub enum NewAdjustmentView {
    PercentageDiscount { applies_to_price_ids: Seq<Seq<char>>, percentage_discount: Seq<char> },
    AmountDiscount { applies_to_price_ids: Seq<Seq<char>>, amount_discount: Seq<char> },
}

/// The views of the string slices of `items`.
pub open spec fn slice_texts(items: Seq<&str>) -> Seq<Seq<char>> {
    Seq::new(items.len(), |i: int| items[i]@)
}

/// The JSON string literals of `items`, in order.
pub open spec fn literals(items: Seq<Seq<char>>) -> Seq<Seq<char>> {
    Seq::new(items.len(), |i: int| string_literal(items[i]))
}

impl<'a> View for NewAdjustment<'a> {
    type V = NewAdjustmentView;

    open spec fn view(&self) -> NewAdjustmentView {
        match self {
            NewAdjustment::PercentageDiscount { applies_to_price_ids, percentage_discount } => {
                NewAdjustmentView::PercentageDiscount {
                    applies_to_price_ids: slice_texts(applies_to_price_ids@),
                    percentage_discount: percentage_discount@,
                }
            },
            NewAdjustment::AmountDiscount { applies_to_price_ids, amount_discount } => {
                NewAdjustmentView::AmountDiscount {
                    applies_to_price_ids: slice_texts(applies_to_price_ids@),
                    amount_discount: amount_discount@,
                }
            },
        }
    }
}

impl NewAdjustmentView {
    /// The value of the `adjustment_type` member, which tells the two kinds
    /// of adjustment apart.
    pub open spec fn tag(self) -> Seq<char> {
        match self {
            NewAdjustmentView::PercentageDiscount { .. } => "percentage_discount"@,
            NewAdjustmentView::AmountDiscount { .. } => "amount_discount"@,
        }
    }

    /// The identifiers of the prices to which the adjustment applies.
    pub open spec fn price_ids(self) -> Seq<Seq<char>> {
        match self {
            NewAdjustmentView::PercentageDiscount { applies_to_price_ids, .. } => applies_to_price_ids,
            NewAdjustmentView::AmountDiscount { applies_to_price_ids, .. } => applies_to_price_ids,
        }
    }

    /// The member that holds the discount itself: for a percentage the
    /// number as it stands, for an amount its string literal.
    pub open spec fn discount_member(self) -> (Seq<char>, Seq<char>) {
        match self {
            NewAdjustmentView::PercentageDiscount { percentage_discount, .. } => (
                "percentage_discount"@,
                percentage_discount,
            ),
            NewAdjustmentView::AmountDiscount { amount_discount, .. } => (
                "amount_discount"@,
                string_literal(amount_discount),
            ),
        }
    }

    /// Whether the adjustment has a JSON encoding: the rate of a percentage
    /// discount must be a JSON number.
    pub open spec fn encodable(self) -> bool {
        self matches NewAdjustmentView::PercentageDiscount { percentage_discount, .. }
            ==> is_number_text(percentage_discount)
    }

    /// The members of the JSON object that stands for the adjustment.
    pub open spec fn members(self) -> Seq<(Seq<char>, Seq<char>)> {
        seq![
            ("adjustment_type"@, string_literal(self.tag())),
            ("applies_to_price_ids"@, array_text(literals(self.price_ids()))),
            self.discount_member(),
        ]
    }

    /// The JSON text of the adjustment.
    pub open spec fn json(self) -> Seq<char> {
        object_text(self.members())
    }
}

/// Encodes each of `ids` as a JSON string literal.
fn quote_all(ids: &Vec<&str>) -> (r: Vec<String>)
    ensures
        texts(r@) == literals(slice_texts(ids@)),
{
    let mut out: Vec<String> = Vec::new();
    let mut i: usize = 0;
    while i < ids.len()
        invariant
            i <= ids.len(),
            out@.len() == i,
            forall|j: int| 0 <= j < i ==> (#[trigger] out@[j])@ == string_literal(ids@[j]@),
        decreases ids.len() - i,
    {
        out.push(quote(ids[i]));
        i += 1;
    }
    assert(texts(out@) =~= literals(slice_texts(ids@)));
    out
}

impl<'a> NewAdjustment<'a> {
    /// Encodes the adjustment as a JSON object: the tag `adjustment_type`
    /// first, then the price identifiers, then the discount.
    ///
    /// Returns `None` where the rate of a percentage discount is not a JSON
    /// number. The amount of an amount discount is written as a string
    /// literal, so never as a number.
    pub fn to_json(&self) -> (r: Option<String>)
        ensures
            match r {
                Some(text) => self@.encodable() && text@ == self@.json(),
                None => !self@.encodable(),
            },
            self@ is AmountDiscount ==> is_quoted(self@.discount_member().1) && !is_number_text(
                self@.discount_member().1,
            ),
    {
        let tag: String;
        let ids: Vec<String>;
        let discount: Member;
        match self {
            NewAdjustment::PercentageDiscount { applies_to_price_ids, percentage_discount } => {
                if !is_number(percentage_discount.as_str()) {
                    return None;
                }
                tag = quote("percentage_discount");
                ids = quote_all(applies_to_price_ids);
                discount = Member {
                    key: String::from_str("percentage_discount"),
                    value: percentage_discount.clone(),
                };
            },
            NewAdjustment::AmountDiscount { applies_to_price_ids, amount_discount } => {
                tag = quote("amount_discount");
                ids = quote_all(applies_to_price_ids);
                discount = Member {
                    key: String::from_str("amount_discount"),
                    value: quote(amount_discount),
                };
                proof {
                    lemma_quoted_is_no_number(discount.value@);
                }
            },
        }
        let mut members: Vec<Member> = Vec::new();
        members.push(Member { key: String::from_str("adjustment_type"), value: tag });
        members.push(Member { key: String::from_str("applies_to_price_ids"), value: array(&ids) });
        members.push(discount);
        let text = object(&members);
        assert(crate::json::member_views(members@) =~= self@.members());
        Some(text)
    }
}

/// Parameters for adding a new adjustment interval to a subscription.
#[derive(Debug, Clone, PartialEq)]
pub struct AddAdjustmentIntervalParams<'a> {
    /// The definition of a new adjustment to create and add to the
    /// subscription.
    pub adjustment: NewAdjustment<'a>,
    /// The start date of the adjustment interval, where it has one.
    pub start_date: Option<Timestamp>,
    /// The end date of the adjustment interval, where it has one.
    pub end_date: Option<Timestamp>,
}

/// The mathematical value of an [`AddAdjustmentIntervalParams`].
pub struct AddAdjustmentIntervalParamsView {
    pub adjustment: NewAdjustmentView,
    pub start_date: Option<Timestamp>,
    pub end_date: Option<Timestamp>,
}

impl<'a> View for AddAdjustmentIntervalParams<'a> {
    type V = AddAdjustmentIntervalParamsView;

    open spec fn view(&self) -> AddAdjustmentIntervalParamsView {
        AddAdjustmentIntervalParamsView {
            adjustment: self.adjustment@,
            start_date: self.start_date,
            end_date: self.end_date,
        }
    }
}

/// The view of `text`, where there is one.
pub open spec fn optional_text(text: Option<String>) -> Option<Seq<char>> {
    match text {
        Some(t) => Some(t@),
        None => None,
    }
}

/// The RFC 3339 text of `date`, where there is a date and it has one.
pub open spec fn date_text(date: Option<Timestamp>) -> Option<Seq<char>> {
    match date {
        Some(t) => t.rfc3339(),
        None => None,
    }
}

/// The member that a date adds to an object: one member with the string
/// literal of its text where the date is set, and none where it is not.
pub open spec fn date_members(key: Seq<char>, text: Option<Seq<char>>) -> Seq<
    (Seq<char>, Seq<char>),
> {
    match text {
        Some(t) => seq![(key, string_literal(t))],
        None => Seq::empty(),
    }
}

/// The members of the JSON object of an adjustment interval, given the JSON
/// text of its adjustment and the RFC 3339 texts of the dates that are set.
pub open spec fn interval_members(
    adjustment: Seq<char>,
    start_date: Option<Seq<char>>,
    end_date: Option<Seq<char>>,
) -> Seq<(Seq<char>, Seq<char>)> {
    seq![("adjustment"@, adjustment)] + date_members("start_date"@, start_date) + date_members(
        "end_date"@,
        end_date,
    )
}

/// Frames an adjustment interval as a JSON object: the encoded adjustment,
/// then each date that is set, as a string. A date that is not set leaves no
/// member behind.
pub fn interval_json(adjustment: String, start_date: Option<String>, end_date: Option<String>) -> (r:
    String)
    ensures
        r@ == object_text(
            interval_members(adjustment@, optional_text(start_date), optional_text(end_date)),
        ),
{
    let mut members: Vec<Member> = Vec::new();
    members.push(Member { key: String::from_str("adjustment"), value: adjustment });
    if let Some(text) = start_date {
        members.push(Member { key: String::from_str("start_date"), value: quote(text.as_str()) });
    }
    if let Some(text) = end_date {
        members.push(Member { key: String::from_str("end_date"), value: quote(text.as_str()) });
    }
    assert(crate::json::member_views(members@) =~= interval_members(
        adjustment@,
        optional_text(start_date),
        optional_text(end_date),
    ));
    object(&members)
}

impl AddAdjustmentIntervalParamsView {
    /// The first field, in the order in which the fields are written, whose
    /// value has no JSON encoding; `None` where every field has one.
    pub open spec fn fault(self) -> Option<Field> {
        if !self.adjustment.encodable() {
            Some(Field::PercentageDiscount)
        } else if self.start_date is Some && date_text(self.start_date) is None {
            Some(Field::StartDate)
        } else if self.end_date is Some && date_text(self.end_date) is None {
            Some(Field::EndDate)
        } else {
            None
        }
    }

    /// The members of the JSON object that stands for the interval.
    pub open spec fn members(self) -> Seq<(Seq<char>, Seq<char>)> {
        interval_members(
            self.adjustment.json(),
            date_text(self.start_date),
            date_text(self.end_date),
        )
    }

    /// The JSON text of the interval.
    pub open spec fn json(self) -> Seq<char> {
        object_text(self.members())
    }
}

impl<'a> AddAdjustmentIntervalParams<'a> {
    /// Encodes the interval as a JSON object.
    ///
    /// Fails with the first field that has no encoding: a rate that is not a
    /// JSON number, or a date without an RFC 3339 text.
    pub fn to_json(&self) -> (r: Result<String, Field>)
        ensures
            match r {
                Ok(text) => self@.fault() is None && text@ == self@.json(),
                Err(field) => self@.fault() == Some(field),
            },
    {
        let adjustment = match self.adjustment.to_json() {
            Some(text) => text,
            None => {
                return Err(Field::PercentageDiscount);
            },
        };
        let start_date = match self.start_date {
            Some(date) => match date.to_rfc3339() {
                Some(text) => Some(text),
                None => {
                    return Err(Field::StartDate);
                },
            },
            None => None,
        };
        let end_date = match self.end_date {
            Some(date) => match date.to_rfc3339() {
                Some(text) => Some(text),
                None => {
                    return Err(Field::EndDate);
                },
            },
            None => None,
        };
        Ok(interval_json(adjustment, start_date, end_date))
    }
}

/// The changes to make to the price intervals of a subscription.
///
/// Only adjustments can be added. The other three lists are kept for the
/// members that the service expects in every request; whatever they hold,
/// each is written as an empty array.
#[derive(Debug, Clone, PartialEq)]
pub struct AddEditPriceIntervalParams<'a> {
    /// A list of adjustments to add to the subscription, in the order in
    /// which the service is to apply them.
    pub add_adjustments: Vec<AddAdjustmentIntervalParams<'a>>,
    /// Price intervals to add: not supported, written as an empty array.
    pub add: Vec<()>,
    /// Price intervals to edit: not supported, written as an empty array.
    pub edit: Vec<()>,
    /// Adjustment intervals to edit: not supported, written as an empty
    /// array.
    pub edit_adjustments: Vec<()>,
}

/// The mathematical value of an [`AddEditPriceIntervalParams`].
pub struct AddEditPriceIntervalParamsView {
    pub add_adjustments: Seq<AddAdjustmentIntervalParamsView>,
    pub add: Seq<()>,
    pub edit: Seq<()>,
    pub edit_adjustments: Seq<()>,
}

impl<'a> View for AddEditPriceIntervalParams<'a> {
    type V = AddEditPriceIntervalParamsView;

    open spec fn view(&self) -> AddEditPriceIntervalParamsView {
        AddEditPriceIntervalParamsView {
            add_adjustments: Seq::new(
                self.add_adjustments@.len(),
                |i: int| self.add_adjustments@[i]@,
            ),
            add: self.add@,
            edit: self.edit@,
            edit_adjustments: self.edit_adjustments@,
        }
    }
}

impl<'a> Default for AddEditPriceIntervalParams<'a> {
    /// The request that changes nothing: all four lists are empty.
    fn default() -> (r: Self)
        ensures
            r@.add_adjustments.len() == 0,
            r@.add.len() == 0,
            r@.edit.len() == 0,
            r@.edit_adjustments.len() == 0,
    {
        AddEditPriceIntervalParams {
            add_adjustments: Vec::new(),
            add: Vec::new(),
            edit: Vec::new(),
            edit_adjustments: Vec::new(),
        }
    }
}

/// The members of the request body, given the JSON texts of the adjustment
/// intervals to add: the four keys are always there, and the last three
/// always hold an empty array.
pub open spec fn body_members(intervals: Seq<Seq<char>>) -> Seq<(Seq<char>, Seq<char>)> {
    seq![
        ("add_adjustments"@, array_text(intervals)),
        ("add"@, array_text(Seq::empty())),
        ("edit"@, array_text(Seq::empty())),
        ("edit_adjustments"@, array_text(Seq::empty())),
    ]
}

/// Frames the encoded adjustment intervals as the body of the request.
pub fn body_json(intervals: &Vec<String>) -> (r: String)
    ensures
        r@ == object_text(body_members(texts(intervals@))),
{
    let none: Vec<String> = Vec::new();
    assert(texts(none@) =~= Seq::empty());
    let mut members: Vec<Member> = Vec::new();
    members.push(Member { key: String::from_str("add_adjustments"), value: array(intervals) });
    members.push(Member { key: String::from_str("add"), value: array(&none) });
    members.push(Member { key: String::from_str("edit"), value: array(&none) });
    members.push(Member { key: String::from_str("edit_adjustments"), value: array(&none) });
    assert(crate::json::member_views(members@) =~= body_members(texts(intervals@)));
    object(&members)
}

impl AddEditPriceIntervalParamsView {
    /// Whether every adjustment interval has a JSON encoding.
    pub open spec fn encodable(self) -> bool {
        forall|i: int|
            0 <= i < self.add_adjustments.len() ==> (#[trigger] self.add_adjustments[i]).fault()
                is None
    }

    /// Whether the interval at `index` is the first without a JSON encoding,
    /// and `field` the first of its fields without one.
    pub open spec fn fails_first_at(self, index: int, field: Field) -> bool {
        &&& 0 <= index < self.add_adjustments.len()
        &&& self.add_adjustments[index].fault() == Some(field)
        &&& forall|i: int|
            0 <= i < index ==> (#[trigger] self.add_adjustments[i]).fault() is None
    }

    /// The JSON texts of the adjustment intervals, in order.
    pub open spec fn interval_texts(self) -> Seq<Seq<char>> {
        Seq::new(self.add_adjustments.len(), |i: int| self.add_adjustments[i].json())
    }

    /// The members of the request body.
    pub open spec fn members(self) -> Seq<(Seq<char>, Seq<char>)> {
        body_members(self.interval_texts())
    }

    /// The JSON text of the request body.
    pub open spec fn json(self) -> Seq<char> {
        object_text(self.members())
    }
}

impl<'a> AddEditPriceIntervalParams<'a> {
    /// Encodes the parameters as the JSON body of the request.
    ///
    /// The adjustment intervals are written in their order. Fails with the
    /// position of the first interval that has no encoding, and the first of
    /// its fields without one.
    pub fn to_json(&self) -> (r: Result<String, EncodeError>)
        ensures
            match r {
                Ok(text) => self@.encodable() && text@ == self@.json(),
                Err(e) => self@.fails_first_at(e.index as int, e.field),
            },
    {
        let mut intervals: Vec<String> = Vec::new();
        let mut i: usize = 0;
        while i < self.add_adjustments.len()
            invariant
                i <= self.add_adjustments.len(),
                intervals@.len() == i,
                forall|j: int|
                    0 <= j < i ==> (#[trigger] self@.add_adjustments[j]).fault() is None,
                forall|j: int|
                    0 <= j < i ==> (#[trigger] intervals@[j])@ == self@.add_adjustments[j].json(),
            decreases self.add_adjustments.len() - i,
        {
            match self.add_adjustments[i].to_json() {
                Ok(text) => {
                    intervals.push(text);
                },
                Err(field) => {
                    return Err(EncodeError { index: i, field });
                },
            }
            i += 1;
        }
        assert(texts(intervals@) =~= self@.interval_texts());
        Ok(body_json(&intervals))
    }
}

/// The segments of the path under which the price intervals of the
/// subscription `subscription_id` are changed.
pub open spec fn price_intervals_segments(subscription_id: Seq<char>) -> Seq<Seq<char>> {
    seq!["subscriptions"@, subscription_id, "price_intervals"@]
}

impl Client {
    /// Add or edit price intervals for a subscription.
    ///
    /// By making modifications to a subscription's price intervals, the
    /// billing behavior of a subscription is changed in one step. This
    /// function plans the call: a `POST` to
    /// `/subscriptions/{subscription_id}/price_intervals` with `params` as
    /// its JSON body. The body of a successful response is the subscription
    /// in its new state.
    ///
    /// Fails, and plans nothing, where an adjustment interval of `params`
    /// has no JSON encoding.
    pub fn add_edit_price_intervals(
        &self,
        subscription_id: &str,
        params: &AddEditPriceIntervalParams<'_>,
    ) -> (r: Result<Request, EncodeError>)
        ensures
            match r {
                Ok(request) => {
                    &&& params@.encodable()
                    &&& request.method == Method::Post
                    &&& request.segments() == price_intervals_segments(subscription_id@)
                    &&& request.body@ == params@.json()
                },
                Err(e) => params@.fails_first_at(e.index as int, e.field),
            },
    {
        let body = match params.to_json() {
            Ok(text) => text,
            Err(e) => {
                return Err(e);
            },
        };
        let mut path_segments: Vec<String> = Vec::new();
        path_segments.push(String::from_str("subscriptions"));
        path_segments.push(String::from_str(subscription_id));
        path_segments.push(String::from_str("price_intervals"));
        assert(texts(path_segments@) =~= price_intervals_segments(subscription_id@));
        Ok(Request { method: Method::Post, path_segments, body })
    }
}

/// The path of a request to change the price intervals of the subscription
/// `subscription_id` is `/subscriptions/`, the identifier as it stands, and
/// `/price_intervals`.
pub proof fn lemma_price_intervals_path(subscription_id: Seq<char>)
    ensures
        path_text(price_intervals_segments(subscription_id)) == "/subscriptions/"@
            + subscription_id + "/price_intervals"@,
{
    reveal_strlit("subscriptions");
    reveal_strlit("price_intervals");
    reveal_strlit("/subscriptions/");
    reveal_strlit("/price_intervals");
    let all = price_intervals_segments(subscription_id);
    let two = all.drop_last();
    let one = two.drop_last();
    assert(two =~= seq!["subscriptions"@, subscription_id]);
    assert(one =~= seq!["subscriptions"@]);
    assert(one.drop_last() =~= Seq::<Seq<char>>::empty());
    reveal_with_fuel(path_text, 4);
    assert(path_text(one) =~= seq!['/'] + "subscriptions"@);
    assert(path_text(all) =~= "/subscriptions/"@ + subscription_id + "/price_intervals"@);
}

/// The tag of an adjustment comes first among its members, and it names
/// the kind of the adjustment: `percentage_discount` for a percentage
/// discount and for nothing else, `amount_discount` for an amount discount
/// and for nothing else. The discount stands under the key of the same
/// name.
pub proof fn lemma_tag_names_kind(adjustment: NewAdjustmentView)
    ensures
        adjustment.members()[0] == ("adjustment_type"@, string_literal(adjustment.tag())),
        adjustment.tag() == "percentage_discount"@ <==> adjustment is PercentageDiscount,
        adjustment.tag() == "amount_discount"@ <==> adjustment is AmountDiscount,
        adjustment.discount_member().0 == adjustment.tag(),
{
    reveal_strlit("percentage_discount");
    reveal_strlit("amount_discount");
    assert("percentage_discount"@.len() != "amount_discount"@.len());
}

/// An interval that can be encoded has the key `start_date` among its
/// members exactly where its start date is set, and `end_date` exactly where
/// its end date is set. A date that is set is written as the string literal
/// of its RFC 3339 text; one that is not set is left out, not written as
/// `null`. The adjustment always comes first.
pub proof fn lemma_dates_written_where_set(interval: AddAdjustmentIntervalParamsView)
    requires
        interval.fault() is None,
    ensures
        interval.members()[0] == ("adjustment"@, interval.adjustment.json()),
        has_key(interval.members(), "start_date"@) <==> interval.start_date is Some,
        has_key(interval.members(), "end_date"@) <==> interval.end_date is Some,
        forall|i: int|
            0 <= i < interval.members().len() && (#[trigger] interval.members()[i]).0
                == "start_date"@ ==> interval.members()[i].1 == string_literal(
                interval.start_date->0.rfc3339()->0,
            ),
        forall|i: int|
            0 <= i < interval.members().len() && (#[trigger] interval.members()[i]).0
                == "end_date"@ ==> interval.members()[i].1 == string_literal(
                interval.end_date->0.rfc3339()->0,
            ),
{
    reveal_strlit("adjustment");
    reveal_strlit("start_date");
    reveal_strlit("end_date");
    assert("adjustment"@[0] != "start_date"@[0]);
    assert("adjustment"@.len() != "end_date"@.len());
    assert("start_date"@.len() != "end_date"@.len());
    let members = interval.members();
    if interval.start_date is Some {
        assert(members[1].0 == "start_date"@);
        if interval.end_date is Some {
            assert(members[2].0 == "end_date"@);
        }
    } else if interval.end_date is Some {
        assert(members[1].0 == "end_date"@);
    }
}

/// Whatever the parameters hold, the request body has the four keys
/// `add_adjustments`, `add`, `edit` and `edit_adjustments`, in this order,
/// and under each of the last three stands the empty array `[]`.
pub proof fn lemma_reserved_lists_are_empty(params: AddEditPriceIntervalParamsView)
    ensures
        params.members().len() == 4,
        params.members()[0] == ("add_adjustments"@, array_text(params.interval_texts())),
        params.members()[1] == ("add"@, "[]"@),
        params.members()[2] == ("edit"@, "[]"@),
        params.members()[3] == ("edit_adjustments"@, "[]"@),
{
    reveal_strlit("[]");
    assert(array_text(Seq::empty()) =~= "[]"@);
}

} // verus!
