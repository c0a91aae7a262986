//! Value read/write payloads of the gateway's value endpoints.

use vstd::prelude::*;
use crate::errors::CommandError;
use crate::parse::{dec_str, dot_split, parse_u16, parse_u16_spec, parse_value_string, u16_to_string};

verus! {

/// One entry of a value-read response: a data-point id and its value,
/// still as the decimal string the gateway sent.
pub struct ValueEntry {
    pub uid: String,
    pub value: String,
}

#[verifier::ext_equal]
pub ghost struct ValueEntryView {
    pub uid: Seq<char>,
    pub value: Seq<char>,
}

impl View for ValueEntry {
    type V = ValueEntryView;

    open spec fn view(&self) -> ValueEntryView {
        ValueEntryView { uid: self.uid@, value: self.value@ }
    }
}

impl DeepView for ValueEntry {
    type V = ValueEntryView;

    open spec fn deep_view(&self) -> ValueEntryView {
        self.view()
    }
}

/// A value-read response body: the entries, or an error object (whose
/// entries the client never inspects).
pub struct Value {
    pub values: Option<Vec<ValueEntry>>,
    pub error: Option<Vec<ValueEntry>>,
}

#[verifier::ext_equal]
pub ghost struct ValueView {
    pub values: Option<Seq<ValueEntryView>>,
    pub error: Option<Seq<ValueEntryView>>,
}

impl View for Value {
    type V = ValueView;

    open spec fn view(&self) -> ValueView {
        ValueView { values: self.values.deep_view(), error: self.error.deep_view() }
    }
}

impl DeepView for Value {
    type V = ValueView;

    open spec fn deep_view(&self) -> ValueView {
        self.view()
    }
}

/// One data-point value after parsing: the snapshot the device factory
/// seeds capability bindings from.
pub struct DataPointValue {
    pub uid: String,
    pub value: u16,
}

#[verifier::ext_equal]
pub ghost struct DataPointValueView {
    pub uid: Seq<char>,
    pub value: u16,
}

impl View for DataPointValue {
    type V = DataPointValueView;

    open spec fn view(&self) -> DataPointValueView {
        DataPointValueView { uid: self.uid@, value: self.value }
    }
}

impl DeepView for DataPointValue {
    type V = DataPointValueView;

    open spec fn deep_view(&self) -> DataPointValueView {
        self.view()
    }
}

/// A value-write request: which data point to write, and what.
#[derive(Debug, PartialEq, Eq)]
pub struct ValueWrite {
    pub uid: String,
    pub value: u16,
}

#[verifier::ext_equal]
pub ghost struct ValueWriteView {
    pub uid: Seq<char>,
    pub value: u16,
}

impl View for ValueWrite {
    type V = ValueWriteView;

    open spec fn view(&self) -> ValueWriteView {
        ValueWriteView { uid: self.uid@, value: self.value }
    }
}

/// What a whole-function value snapshot parses to: each entry's value
/// string read as a plain decimal, defaulting to zero when it does not
/// parse (a fractional value reads as zero here).
pub open spec fn fn_values_spec(entries: Seq<ValueEntryView>) -> Seq<DataPointValueView> {
    entries.map_values(
        |e: ValueEntryView|
            DataPointValueView {
                uid: e.uid,
                value: match parse_u16_spec(e.value) {
                    Some(v) => v,
                    None => 0,
                },
            },
    )
}

/// What a value-read response yields on the single-value read path:
/// the first entry's value string, truncated at its first `'.'`, read as
/// a decimal; a response without a `values` list reads as zero; an empty
/// list or an unparsable string is malformed.
pub open spec fn value_of_response_spec(v: ValueView) -> Result<u16, CommandError> {
    match v.values {
        Some(entries) => {
            if entries.len() == 0 {
                Err(CommandError::MalformedResponse)
            } else {
                match parse_u16_spec(dot_split(entries[0].value)) {
                    Some(n) => Ok(n),
                    None => Err(CommandError::MalformedResponse),
                }
            }
        },
        None => Ok(0u16),
    }
}

/// Reads the single value carried by a value-read response.
pub fn value_from_response(v: &Value) -> (r: Result<u16, CommandError>)
    ensures
        r == value_of_response_spec(v@),
{
    match &v.values {
        Some(entries) => {
            if entries.len() == 0 {
                Err(CommandError::MalformedResponse)
            } else {
                let first = &entries[0];
                match parse_value_string(first.value.as_str()) {
                    Some(n) => Ok(n),
                    None => Err(CommandError::MalformedResponse),
                }
            }
        },
        None => Ok(0u16),
    }
}

/// Parses a whole-function value snapshot: one parsed value per entry,
/// in response order, zero where the value string is not a plain decimal.
pub fn fn_values_from_response(v: &Value) -> (r: Vec<DataPointValue>)
    ensures
        r.deep_view() == match v@.values {
            Some(entries) => fn_values_spec(entries),
            None => Seq::<DataPointValueView>::empty(),
        },
{
    let mut out: Vec<DataPointValue> = Vec::new();
    match &v.values {
        Some(entries) => {
            let ghost evs = entries.deep_view();
            let n = entries.len();
            let mut i: usize = 0;
            while i < n
                invariant
                    0 <= i <= n,
                    n == evs.len(),
                    evs == entries.deep_view(),
                    out.deep_view() =~= fn_values_spec(evs.take(i as int)),
                decreases n - i,
            {
                let e = &entries[i];
                let value = match parse_u16(e.value.as_str()) {
                    Some(n) => n,
                    None => 0,
                };
                let ghost prev = out.deep_view();
                let ghost mapped = DataPointValueView { uid: evs[i as int].uid, value };
                out.push(DataPointValue { uid: e.uid.clone(), value });
                proof {
                    assert(out.deep_view() =~= prev.push(mapped));
                    assert(evs.take(i + 1) =~= evs.take(i as int).push(evs[i as int]));
                    assert(fn_values_spec(evs.take(i + 1)) =~= fn_values_spec(
                        evs.take(i as int),
                    ).push(mapped));
                }
                i = i + 1;
            }
            proof {
                assert(evs.take(n as int) =~= evs);
            }
            out
        },
        None => out,
    }
}

/// The JSON body of a value-write request for one data point.
pub open spec fn write_body_spec(uid: Seq<char>, value: u16) -> Seq<char> {
    "{\"values\": [{\"uid\": \""@ + uid + "\", \"value\": "@ + dec_str(value as nat) + "}]}"@
}

/// Renders the JSON body that writes `value` to the data point `uid`.
pub fn write_request_body(w: &ValueWrite) -> (r: String)
    ensures
        r@ == write_body_spec(w.uid@, w.value),
{
    let mut body = "{\"values\": [{\"uid\": \"".to_owned();
    body.append(w.uid.as_str());
    body.append("\", \"value\": ");
    let num = u16_to_string(w.value);
    body.append(num.as_str());
    body.append("}]}");
    body
}

} // verus!
