//! Attributes, and what every payload carries: the fixed resource identity
//! and the instrumentation scope.
use crate::record::{Attribute, AttributeValue, AttributeValueView, AttributeView};
use crate::schema::common::{
    any_value_message, key_value_message, key_value_messages, resource_message, scope_message,
    value_message, AnyValueMessage, InstrumentationScopeMessage, KeyValueMessage, ResourceMessage,
    ValueMessage,
};
use bytes::Buf;
use opentelemetry_proto::tonic::common::v1::any_value::Value;
use opentelemetry_proto::tonic::common::v1::{AnyValue, InstrumentationScope, KeyValue};
use opentelemetry_proto::tonic::resource::v1::Resource;
use vstd::prelude::*;

verus! {

/// The one-of that stands for an attribute value: the variant of the same type.
pub open spec fn attribute_value_message(value: AttributeValueView) -> ValueMessage {
    match value {
        AttributeValueView::Text(s) => ValueMessage::StringValue(s),
        AttributeValueView::Bool(b) => ValueMessage::BoolValue(b),
        AttributeValueView::Int(i) => ValueMessage::IntValue(i),
        AttributeValueView::Double(bits) => ValueMessage::DoubleValue(bits),
    }
}

/// The `AnyValue` that holds text.
pub open spec fn text_message(text: Seq<char>) -> AnyValueMessage {
    AnyValueMessage { value: Some(ValueMessage::StringValue(text)) }
}

/// The `KeyValue` that stands for an attribute.
pub open spec fn attribute_message(attribute: AttributeView) -> KeyValueMessage {
    KeyValueMessage {
        key: attribute.key,
        value: Some(AnyValueMessage { value: Some(attribute_value_message(attribute.value)) }),
        key_strindex: 0,
    }
}

/// The `KeyValue`s that stand for a sequence of attributes, in the same order.
pub open spec fn attribute_messages(attributes: Seq<AttributeView>) -> Seq<KeyValueMessage> {
    Seq::new(attributes.len(), |i: int| attribute_message(attributes[i]))
}

/// The identity of the producing service: its name, its identifier and its
/// deployment environment. It is the same for every payload.
pub open spec fn resource_identity() -> Seq<AttributeView> {
    seq![
        AttributeView {
            key: "service.name"@,
            value: AttributeValueView::Text("kong-gateway-qiqi-demo"@),
        },
        AttributeView {
            key: "service"@,
            value: AttributeValueView::Text("kong-gateway-qiqi-demo"@),
        },
        AttributeView { key: "env"@, value: AttributeValueView::Text("dev"@) },
    ]
}

/// The `Resource` of every payload.
pub open spec fn resource_envelope() -> ResourceMessage {
    ResourceMessage {
        attributes: attribute_messages(resource_identity()),
        dropped_attributes_count: 0,
        entity_refs: Seq::empty(),
    }
}

/// The name of the instrumentation scope of every payload.
pub open spec fn scope_name() -> Seq<char> {
    "kong-gateway-efficient-tracing-subsystem"@
}

/// The `InstrumentationScope` of every payload.
pub open spec fn scope_envelope() -> InstrumentationScopeMessage {
    InstrumentationScopeMessage {
        name: scope_name(),
        version: Seq::empty(),
        attributes: Seq::empty(),
        dropped_attributes_count: 0,
    }
}

/// The one-of variant that holds the double with the IEEE-754 bit pattern
/// `bits`. The double is read from the eight bytes of `bits`, least
/// significant first, by `Buf::get_f64_le` of the `bytes` crate, which gives
/// the double of those bits.
#[verifier::external_body]
pub(crate) fn double_value(bits: u64) -> (value: Value)
    ensures
        value_message(value) == ValueMessage::DoubleValue(bits),
{
    Value::DoubleValue((&bits.to_le_bytes()[..]).get_f64_le())
}

/// A copy of `bytes`.
pub fn copy_bytes(bytes: &Vec<u8>) -> (copy: Vec<u8>)
    ensures
        copy@ == bytes@,
{
    bytes.clone()
}

/// Builds the `AnyValue` that holds `text`.
pub fn text_any_value(text: &str) -> (any: AnyValue)
    ensures
        any_value_message(any) == text_message(text@),
{
    AnyValue { value: Some(Value::StringValue(text.to_string())) }
}

/// Builds the `KeyValue` that stands for `attribute`.
pub fn to_key_value(attribute: &Attribute) -> (kv: KeyValue)
    ensures
        key_value_message(kv) == attribute_message(attribute@),
{
    let value = match &attribute.value {
        AttributeValue::Text(s) => Value::StringValue(s.clone()),
        AttributeValue::Bool(b) => Value::BoolValue(*b),
        AttributeValue::Int(i) => Value::IntValue(*i),
        AttributeValue::Double(bits) => double_value(*bits),
    };
    KeyValue {
        key: attribute.key.clone(),
        value: Some(AnyValue { value: Some(value) }),
        key_strindex: 0,
    }
}

/// Builds the `KeyValue`s that stand for `attributes`, in the same order.
pub fn to_key_values(attributes: &Vec<Attribute>) -> (kvs: Vec<KeyValue>)
    ensures
        key_value_messages(kvs@) == attribute_messages(attributes.deep_view()),
{
    let mut kvs: Vec<KeyValue> = Vec::new();
    let mut i: usize = 0;
    while i < attributes.len()
        invariant
            i <= attributes.len(),
            kvs@.len() == i,
            forall|j: int|
                0 <= j < i ==> key_value_message(#[trigger] kvs@[j]) == attribute_message(
                    attributes@[j]@,
                ),
        decreases attributes.len() - i,
    {
        kvs.push(to_key_value(&attributes[i]));
        i += 1;
    }
    assert(key_value_messages(kvs@) =~= attribute_messages(attributes.deep_view()));
    kvs
}

/// Builds the `KeyValue` with a text value that holds one part of the identity.
fn identity_key_value(key: &str, value: &str) -> (kv: KeyValue)
    ensures
        key_value_message(kv) == attribute_message(
            AttributeView { key: key@, value: AttributeValueView::Text(value@) },
        ),
{
    KeyValue {
        key: key.to_string(),
        value: Some(AnyValue { value: Some(Value::StringValue(value.to_string())) }),
        key_strindex: 0,
    }
}

/// Builds the `Resource` of every payload.
pub fn build_resource() -> (resource: Resource)
    ensures
        resource_message(resource) == resource_envelope(),
{
    let mut attributes: Vec<KeyValue> = Vec::new();
    attributes.push(identity_key_value("service.name", "kong-gateway-qiqi-demo"));
    attributes.push(identity_key_value("service", "kong-gateway-qiqi-demo"));
    attributes.push(identity_key_value("env", "dev"));
    let resource = Resource { attributes, dropped_attributes_count: 0, entity_refs: Vec::new() };
    assert(key_value_messages(resource.attributes@) =~= attribute_messages(resource_identity()));
    resource
}

/// Builds the `InstrumentationScope` of every payload.
pub fn build_scope() -> (scope: InstrumentationScope)
    ensures
        scope_message(scope) == scope_envelope(),
{
    let scope = InstrumentationScope {
        name: "kong-gateway-efficient-tracing-subsystem".to_string(),
        version: String::new(),
        attributes: Vec::new(),
        dropped_attributes_count: 0,
    };
    assert(key_value_messages(scope.attributes@) =~= Seq::empty());
    scope
}

} // verus!
