//! The memo of an IBC transfer whose source chain calls the adapter back: the
//! caller's memo, a JSON object, with its `src_callback` entry set to the adapter's
//! address. The library holds JSON values as its own tree of plain values; the
//! parser and the printer of `serde_json_wasm` read and write the text.

use vstd::prelude::*;
use vstd::string::StrSliceExecFns;
use crate::duality::message;
use crate::error::{ContractError, StdError};
use serde_cw_value::Value;

verus! {

/// The value tree of `serde_cw_value`, which the parser and the printer work on.
#[verifier::external_type_specification]
#[verifier::external_body]
pub struct ExCwValue(serde_cw_value::Value);

/// A JSON value: null, a boolean, a whole number (unsigned, or signed when it is
/// negative), a string, an array, or an object as its entries.
pub enum JsonValue {
    Null,
    Bool(bool),
    Unsigned(u64),
    Signed(i64),
    Text(String),
    Array(Vec<JsonValue>),
    Object(Vec<(String, JsonValue)>),
}

/// A JSON value as a mathematical tree.
pub enum JsonView {
    Null,
    Bool(bool),
    Unsigned(u64),
    Signed(i64),
    Text(Seq<char>),
    Array(Seq<JsonView>),
    Object(Seq<(Seq<char>, JsonView)>),
}

/// The tree that a JSON value holds.
pub open spec fn json_view(v: JsonValue) -> JsonView
    decreases v,
{
    match v {
        JsonValue::Null => JsonView::Null,
        JsonValue::Bool(b) => JsonView::Bool(b),
        JsonValue::Unsigned(n) => JsonView::Unsigned(n),
        JsonValue::Signed(n) => JsonView::Signed(n),
        JsonValue::Text(s) => JsonView::Text(s@),
        JsonValue::Array(a) => JsonView::Array(
            Seq::new(
                a@.len(),
                |i: int|
                    if 0 <= i < a@.len() {
                        proof {
                            assert(decreases_to!(v => a));
                            assert(decreases_to!(a => a@));
                            assert(decreases_to!(a@ => a@[i]));
                        }
                        json_view(a@[i])
                    } else {
                        JsonView::Null
                    },
            ),
        ),
        JsonValue::Object(o) => JsonView::Object(
            Seq::new(
                o@.len(),
                |i: int|
                    if 0 <= i < o@.len() {
                        proof {
                            assert(decreases_to!(v => o));
                            assert(decreases_to!(o => o@));
                            assert(decreases_to!(o@ => o@[i]));
                            assert(decreases_to!(o@[i] => o@[i].1));
                        }
                        (o@[i].0@, json_view(o@[i].1))
                    } else {
                        (Seq::empty(), JsonView::Null)
                    },
            ),
        ),
    }
}

/// The entries of an object, as trees.
pub open spec fn entries_view(o: Seq<(String, JsonValue)>) -> Seq<(Seq<char>, JsonView)> {
    Seq::new(o.len(), |i: int| (o[i].0@, json_view(o[i].1)))
}

/// An object's tree is that of its entries.
proof fn lemma_object_view(o: Vec<(String, JsonValue)>)
    ensures
        json_view(JsonValue::Object(o)) == JsonView::Object(entries_view(o@)),
{
    assert(entries_view(o@) =~= (match json_view(JsonValue::Object(o)) {
        JsonView::Object(es) => es,
        _ => Seq::empty(),
    }));
}

/// The value that `serde_json_wasm::from_str` parses from `text` into a value of
/// `serde_cw_value`, as a tree, or the parser's error text.
pub uninterp spec fn json_parse(text: Seq<char>) -> Result<JsonView, Seq<char>>;

/// The text that `serde_json_wasm::to_string` prints for the value of
/// `serde_cw_value` that the tree `v` stands for, or the printer's error text.
pub uninterp spec fn json_print(v: JsonView) -> Result<Seq<char>, Seq<char>>;

/// A value of `serde_cw_value` as a JSON value, one variant for another; `None` for
/// the variants that JSON text never gives (and for a key that is not a string).
#[verifier::external_body]
fn json_of_cw(v: Value) -> Option<JsonValue> {
    match v {
        Value::Unit => Some(JsonValue::Null),
        Value::Bool(b) => Some(JsonValue::Bool(b)),
        Value::U64(n) => Some(JsonValue::Unsigned(n)),
        Value::I64(n) => Some(JsonValue::Signed(n)),
        Value::String(s) => Some(JsonValue::Text(s)),
        Value::Seq(s) => s.into_iter().map(json_of_cw).collect::<Option<Vec<_>>>().map(JsonValue::Array),
        Value::Map(m) => m
            .into_iter()
            .map(|(k, v)| match k { Value::String(k) => Some((k, json_of_cw(v)?)), _ => None })
            .collect::<Option<Vec<_>>>()
            .map(JsonValue::Object),
        _ => None,
    }
}

/// A JSON value as a value of `serde_cw_value`, one variant for another.
#[verifier::external_body]
fn cw_of_json(v: JsonValue) -> Value {
    match v {
        JsonValue::Null => Value::Unit,
        JsonValue::Bool(b) => Value::Bool(b),
        JsonValue::Unsigned(n) => Value::U64(n),
        JsonValue::Signed(n) => Value::I64(n),
        JsonValue::Text(s) => Value::String(s),
        JsonValue::Array(a) => Value::Seq(a.into_iter().map(cw_of_json).collect()),
        JsonValue::Object(o) => Value::Map(o.into_iter().map(|(k, v)| (Value::String(k), cw_of_json(v))).collect()),
    }
}

/// `serde_json_wasm::from_str` into a `serde_cw_value::Value`: claims the value it
/// parses, as a JSON value (the parser gives only null, booleans, whole numbers,
/// strings, arrays and objects with string keys, so the conversion never fails),
/// or the text of its error.
#[verifier::external_body]
fn parse_json(text: &str) -> (r: Result<Option<JsonValue>, String>)
    ensures
        match json_parse(text@) {
            Ok(j) => r matches Ok(Some(v)) && json_view(v) == j,
            Err(e) => r matches Err(m) && m@ == e,
        },
{
    serde_json_wasm::from_str::<Value>(text).map(json_of_cw).map_err(|e| e.to_string())
}

/// `serde_json_wasm::to_string` of the `serde_cw_value::Value` that a JSON value
/// stands for: claims the printed text, or the text of its error.
#[verifier::external_body]
fn print_json(v: JsonValue) -> (r: Result<String, String>)
    ensures
        match json_print(json_view(v)) {
            Ok(s) => r matches Ok(t) && t@ == s,
            Err(e) => r matches Err(m) && m@ == e,
        },
{
    serde_json_wasm::to_string(&cw_of_json(v)).map_err(|e| e.to_string())
}

/// The memo text that is parsed: `{}` in place of an empty memo.
pub open spec fn memo_object_text(memo: Seq<char>) -> Seq<char> {
    if memo.len() == 0 {
        "{}"@
    } else {
        memo
    }
}

/// The entries of `entries` whose key is not `key`, in their order.
pub open spec fn without_key(entries: Seq<(Seq<char>, JsonView)>, key: Seq<char>) -> Seq<(Seq<char>, JsonView)>
    decreases entries.len(),
{
    if entries.len() == 0 {
        entries
    } else {
        let rest = without_key(entries.drop_last(), key);
        if entries.last().0 == key {
            rest
        } else {
            rest.push(entries.last())
        }
    }
}

/// The `src_callback` entry that names `address`.
pub open spec fn src_callback_entry(address: Seq<char>) -> (Seq<char>, JsonView) {
    ("src_callback"@, JsonView::Object(seq![("address"@, JsonView::Text(address))]))
}

/// The entries of a memo object once its `src_callback` entry is set to name
/// `address`: the other entries, then the new one.
pub open spec fn with_src_callback(entries: Seq<(Seq<char>, JsonView)>, address: Seq<char>) -> Seq<
    (Seq<char>, JsonView),
> {
    without_key(entries, "src_callback"@).push(src_callback_entry(address))
}

/// Setting `src_callback` keeps every other entry, in order, and leaves exactly one
/// `src_callback` entry, the one that names `address`.
pub proof fn lemma_src_callback_replaced(entries: Seq<(Seq<char>, JsonView)>, address: Seq<char>)
    ensures
        forall|i: int|
            0 <= i < entries.len() && entries[i].0 != "src_callback"@ ==> with_src_callback(entries, address).contains(
                #[trigger] entries[i],
            ),
        forall|j: int|
            0 <= j < with_src_callback(entries, address).len() && (#[trigger] with_src_callback(entries, address)[j]).0
                == "src_callback"@ ==> with_src_callback(entries, address)[j] == src_callback_entry(address),
        forall|j: int|
            0 <= j < with_src_callback(entries, address).len() ==> (#[trigger] with_src_callback(entries, address)[j]).0
                == "src_callback"@ || entries.contains(with_src_callback(entries, address)[j]),
        with_src_callback(entries, address).last() == src_callback_entry(address),
{
    lemma_without_key(entries, "src_callback"@);
    let w = without_key(entries, "src_callback"@);
    let r = with_src_callback(entries, address);
    assert forall|i: int| 0 <= i < entries.len() && entries[i].0 != "src_callback"@ implies r.contains(
        #[trigger] entries[i],
    ) by {
        let k = choose|k: int| 0 <= k < w.len() && w[k] == entries[i];
        assert(r[k] == entries[i]);
    }
    assert forall|j: int| 0 <= j < r.len() implies (#[trigger] r[j]).0 == "src_callback"@ || entries.contains(r[j]) by {
        if j < w.len() {
            assert(r[j] == w[j]);
        }
    }
}

/// What `without_key` keeps: exactly the entries whose key differs.
proof fn lemma_without_key(entries: Seq<(Seq<char>, JsonView)>, key: Seq<char>)
    ensures
        forall|j: int| 0 <= j < without_key(entries, key).len() ==> (#[trigger] without_key(entries, key)[j]).0 != key
            && entries.contains(without_key(entries, key)[j]),
        forall|i: int|
            0 <= i < entries.len() && entries[i].0 != key ==> exists|k: int|
                0 <= k < without_key(entries, key).len() && #[trigger] without_key(entries, key)[k] == #[trigger] entries[i],
    decreases entries.len(),
{
    if entries.len() > 0 {
        let init = entries.drop_last();
        lemma_without_key(init, key);
        let rest = without_key(init, key);
        assert forall|j: int| 0 <= j < without_key(entries, key).len() implies (#[trigger] without_key(
            entries,
            key,
        )[j]).0 != key && entries.contains(without_key(entries, key)[j]) by {
            if j < rest.len() {
                assert(without_key(entries, key)[j] == rest[j]);
                let k = choose|k: int| 0 <= k < init.len() && init[k] == rest[j];
                assert(entries[k] == init[k]);
            } else {
                assert(entries[entries.len() - 1] == entries.last());
            }
        }
        assert forall|i: int| 0 <= i < entries.len() && entries[i].0 != key implies exists|k: int|
            0 <= k < without_key(entries, key).len() && #[trigger] without_key(entries, key)[k]
                == #[trigger] entries[i] by {
            if i < init.len() {
                assert(init[i] == entries[i]);
                let k = choose|k: int| 0 <= k < rest.len() && rest[k] == init[i];
                assert(without_key(entries, key)[k] == rest[k]);
            } else {
                assert(without_key(entries, key)[rest.len() as int] == entries.last());
            }
        }
    }
}

/// The memo to send with a transfer: the caller's memo (empty reads as `{}`), which
/// must be a JSON object, with its `src_callback` entry set to `{"address":
/// contract_address}` (any old one replaced, every other entry kept) so that the
/// source chain calls the adapter back.
pub fn verify_and_create_memo(memo: &str, contract_address: &str) -> (r: Result<String, ContractError>)
    ensures
        ({
            let m = memo_object_text(memo@);
            match json_parse(m) {
                Err(e) => r matches Err(ContractError::Std(StdError::GenericErr { msg })) && msg@
                    == "Error parsing memo: "@ + e,
                Ok(JsonView::Object(entries)) => match json_print(
                    JsonView::Object(with_src_callback(entries, contract_address@)),
                ) {
                    Ok(s) => r matches Ok(t) && t@ == s,
                    Err(e) => r matches Err(ContractError::Std(StdError::GenericErr { msg })) && msg@
                        == "Error serializing memo: "@ + e,
                },
                Ok(_) => r matches Err(ContractError::Std(StdError::GenericErr { msg })) && msg@ == "Invalid memo"@,
            }
        }),
{
    let text: &str = if memo.unicode_len() == 0 {
        "{}"
    } else {
        memo
    };
    let parsed = match parse_json(text) {
        Err(e) => {
            return Err(ContractError::Std(StdError::GenericErr { msg: message("Error parsing memo: ", e.as_str()) }));
        },
        Ok(None) => {
            return Err(ContractError::Aborted);
        },
        Ok(Some(v)) => v,
    };
    let mut entries = match parsed {
        JsonValue::Object(o) => o,
        _ => {
            return Err(ContractError::Std(StdError::GenericErr { msg: String::from_str("Invalid memo") }));
        },
    };
    let ghost orig = entries@;
    proof {
        lemma_object_view(entries);
    }
    let mut kept: Vec<(String, JsonValue)> = Vec::new();
    let n = entries.len();
    let mut i: usize = 0;
    let key = String::from_str("src_callback");
    while i < n
        invariant
            n == orig.len(),
            0 <= i <= n,
            entries@ == orig.skip(i as int),
            key@ == "src_callback"@,
            entries_view(kept@) == without_key(entries_view(orig).take(i as int), "src_callback"@),
        decreases n - i,
    {
        let e = entries.remove(0);
        proof {
            let ev = entries_view(orig);
            assert(ev.take(i + 1).drop_last() =~= ev.take(i as int));
            assert(ev.take(i + 1).last() == (e.0@, json_view(e.1)));
        }
        if e.0 != key {
            let ghost before = kept@;
            kept.push(e);
            proof {
                assert(entries_view(kept@) =~= entries_view(before).push((e.0@, json_view(e.1))));
            }
        }
        proof {
            assert(entries@ =~= orig.skip(i + 1));
        }
        i = i + 1;
    }
    proof {
        assert(entries_view(orig).take(n as int) =~= entries_view(orig));
    }
    let inner = vec![(String::from_str("address"), JsonValue::Text(contract_address.to_string()))];
    proof {
        lemma_object_view(inner);
        assert(entries_view(inner@) =~= seq![("address"@, JsonView::Text(contract_address@))]);
    }
    let ghost before = kept@;
    kept.push((key, JsonValue::Object(inner)));
    proof {
        assert(entries_view(kept@) =~= entries_view(before).push(src_callback_entry(contract_address@)));
        lemma_object_view(kept);
    }
    match print_json(JsonValue::Object(kept)) {
        Ok(s) => Ok(s),
        Err(e) => Err(ContractError::Std(StdError::GenericErr { msg: message("Error serializing memo: ", e.as_str()) })),
    }
}

} // verus!
