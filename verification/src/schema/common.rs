//! Values, attributes, the resource and the instrumentation scope.
use opentelemetry_proto::tonic::common::v1::any_value::Value;
use opentelemetry_proto::tonic::common::v1::{
    AnyValue, ArrayValue, EntityRef, InstrumentationScope, KeyValue, KeyValueList,
};
use opentelemetry_proto::tonic::resource::v1::Resource;
use vstd::float::FloatBitsProperties;
use vstd::prelude::*;

verus! {

#[verifier::external_type_specification]
#[verifier::external_body]
pub struct ExArrayValue(opentelemetry_proto::tonic::common::v1::ArrayValue);

#[verifier::external_type_specification]
#[verifier::external_body]
pub struct ExKeyValueList(opentelemetry_proto::tonic::common::v1::KeyValueList);

#[verifier::external_type_specification]
#[verifier::external_body]
pub struct ExEntityRef(opentelemetry_proto::tonic::common::v1::EntityRef);

#[verifier::external_type_specification]
pub struct ExValue(opentelemetry_proto::tonic::common::v1::any_value::Value);

#[verifier::external_type_specification]
pub struct ExAnyValue(opentelemetry_proto::tonic::common::v1::AnyValue);

#[verifier::external_type_specification]
pub struct ExKeyValue(opentelemetry_proto::tonic::common::v1::KeyValue);

#[verifier::external_type_specification]
pub struct ExInstrumentationScope(opentelemetry_proto::tonic::common::v1::InstrumentationScope);

#[verifier::external_type_specification]
pub struct ExResource(opentelemetry_proto::tonic::resource::v1::Resource);

/// What the one-of inside an `AnyValue` holds. A double stands by its IEEE-754 bits.
pub enum ValueMessage {
    StringValue(Seq<char>),
    BoolValue(bool),
    IntValue(i64),
    DoubleValue(u64),
    ArrayValue(ArrayValue),
    KvlistValue(KeyValueList),
    BytesValue(Seq<u8>),
    StringValueStrindex(i32),
}

/// What the one-of `value` holds.
pub open spec fn value_message(value: Value) -> ValueMessage {
    match value {
        Value::StringValue(s) => ValueMessage::StringValue(s@),
        Value::BoolValue(b) => ValueMessage::BoolValue(b),
        Value::IntValue(i) => ValueMessage::IntValue(i),
        Value::DoubleValue(d) => ValueMessage::DoubleValue(d.to_bits_spec()),
        Value::ArrayValue(a) => ValueMessage::ArrayValue(a),
        Value::KvlistValue(l) => ValueMessage::KvlistValue(l),
        Value::BytesValue(b) => ValueMessage::BytesValue(b@),
        Value::StringValueStrindex(i) => ValueMessage::StringValueStrindex(i),
    }
}

/// What an `AnyValue` holds.
pub struct AnyValueMessage {
    pub value: Option<ValueMessage>,
}

/// What the `AnyValue` `any` holds.
pub open spec fn any_value_message(any: AnyValue) -> AnyValueMessage {
    AnyValueMessage {
        value: match any.value {
            Some(value) => Some(value_message(value)),
            None => None,
        },
    }
}

/// What a `KeyValue` holds.
pub struct KeyValueMessage {
    pub key: Seq<char>,
    pub value: Option<AnyValueMessage>,
    pub key_strindex: i32,
}

/// What the `KeyValue` `kv` holds.
pub open spec fn key_value_message(kv: KeyValue) -> KeyValueMessage {
    KeyValueMessage {
        key: kv.key@,
        value: match kv.value {
            Some(any) => Some(any_value_message(any)),
            None => None,
        },
        key_strindex: kv.key_strindex,
    }
}

/// What a sequence of `KeyValue`s holds, item by item.
pub open spec fn key_value_messages(kvs: Seq<KeyValue>) -> Seq<KeyValueMessage> {
    Seq::new(kvs.len(), |i: int| key_value_message(kvs[i]))
}

/// What an `InstrumentationScope` holds.
pub struct InstrumentationScopeMessage {
    pub name: Seq<char>,
    pub version: Seq<char>,
    pub attributes: Seq<KeyValueMessage>,
    pub dropped_attributes_count: u32,
}

/// What the `InstrumentationScope` `scope` holds.
pub open spec fn scope_message(scope: InstrumentationScope) -> InstrumentationScopeMessage {
    InstrumentationScopeMessage {
        name: scope.name@,
        version: scope.version@,
        attributes: key_value_messages(scope.attributes@),
        dropped_attributes_count: scope.dropped_attributes_count,
    }
}

/// What a `Resource` holds.
pub struct ResourceMessage {
    pub attributes: Seq<KeyValueMessage>,
    pub dropped_attributes_count: u32,
    pub entity_refs: Seq<EntityRef>,
}

/// What the `Resource` `resource` holds.
pub open spec fn resource_message(resource: Resource) -> ResourceMessage {
    ResourceMessage {
        attributes: key_value_messages(resource.attributes@),
        dropped_attributes_count: resource.dropped_attributes_count,
        entity_refs: resource.entity_refs@,
    }
}

} // verus!
