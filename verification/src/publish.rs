//! What publishing a request to SNS is made of.
use vstd::prelude::*;

use aws_sdk_sns::types::MessageAttributeValue;

use crate::error::{ServiceError, ServiceErrorView};
use crate::message::{masked_phone, validation_result, ZMQSendSmsMessage};

verus! {

#[verifier::external_type_specification]
#[verifier::external_body]
pub struct ExMessageAttributeValue(aws_sdk_sns::types::MessageAttributeValue);

/// Name of the SNS message attribute that carries the sender ID.
pub open spec fn sender_attribute_name() -> Seq<char> {
    "SenderID"@
}

/// SNS data type of the sender ID attribute.
pub open spec fn sender_attribute_type() -> Seq<char> {
    "String"@
}


/// An SNS message attribute holding a string, with its data type and value.
pub struct StringAttribute {
    attribute: MessageAttributeValue,
    data_type: String,
    value: String,
}

impl View for StringAttribute {
    type V = (Seq<char>, Seq<char>);

    /// The attribute's data type and its string value.
    closed spec fn view(&self) -> (Seq<char>, Seq<char>) {
        (self.data_type@, self.value@)
    }
}

impl StringAttribute {
    /// The attribute's data type.
    pub fn data_type(&self) -> (t: &str)
        ensures
            t@ == self@.0,
    {
        self.data_type.as_str()
    }

    /// The attribute's string value.
    pub fn value(&self) -> (v: &str)
        ensures
            v@ == self@.1,
    {
        self.value.as_str()
    }

    /// The SNS attribute itself, to be attached to a publish request.
    pub fn into_attribute(self) -> MessageAttributeValue {
        self.attribute
    }
}

/// Builds an SNS message attribute with `MessageAttributeValue::builder()`,
/// setting its data type and its string value, then `build()`. Trusted:
/// the build succeeds, as `build` fails only when no data type was set, and
/// the built attribute carries the given data type and string value, which
/// `build` copies from the builder.
#[verifier::external_body]
fn build_string_attribute(data_type: String, value: String) -> (r: Result<StringAttribute, String>)
    ensures
        r is Ok,
        r is Ok ==> r->Ok_0@ == (data_type@, value@),
{
    match MessageAttributeValue::builder().data_type(data_type.clone()).string_value(value.clone()).build() {
        Ok(attribute) => Ok(StringAttribute { attribute, data_type, value }),
        Err(e) => Err(e.to_string()),
    }
}

/// An SNS publish request for one SMS: the destination, the text, and the
/// sender ID as a message attribute.
pub struct SnsPublishRequest {
    pub phone_number: String,
    pub message: String,
    pub attribute_name: String,
    pub sender_attribute: StringAttribute,
}

impl SnsPublishRequest {
    /// The request that publishes `msg`: sent to its phone number, with its
    /// text, and its sender ID as a `String` attribute named `SenderID`.
    pub fn from_message(msg: ZMQSendSmsMessage) -> (r: Result<SnsPublishRequest, ServiceError>)
        ensures
            r matches Ok(req) && {
                &&& req.phone_number@ == msg.phone_number@
                &&& req.message@ == msg.message@
                &&& req.attribute_name@ == sender_attribute_name()
                &&& req.sender_attribute@ == (sender_attribute_type(), msg.sender_id@)
            },
    {
        let ZMQSendSmsMessage { sender_id, phone_number, message } = msg;
        let sender_attribute = match build_string_attribute("String".to_owned(), sender_id) {
            Ok(a) => a,
            Err(text) => return Err(ServiceError::Build(text)),
        };
        Ok(SnsPublishRequest { phone_number, message, attribute_name: "SenderID".to_owned(), sender_attribute })
    }
}

/// What happens before a request is handed to the publisher: it is
/// validated, and its phone number is masked for the log line that follows
/// a successful publish.
pub fn prepare_send(msg: &ZMQSendSmsMessage) -> (r: Result<String, ServiceError>)
    ensures
        match r {
            Ok(masked) => validation_result(msg.sender_id@, msg.phone_number@, msg.message@) is Ok
                && masked@ == masked_phone(msg.phone_number@),
            Err(e) => validation_result(msg.sender_id@, msg.phone_number@, msg.message@)
                == Err::<(), ServiceErrorView>(e@),
        },
{
    match msg.validate() {
        Ok(()) => Ok(msg.mask_phone()),
        Err(e) => Err(e),
    }
}

} // verus!
