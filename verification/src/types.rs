//! The records that are sent to the server and that come back from it.
//!
//! A field that the server may leave out, or send as `null`, is an `Option`.
//! Records of the same shape are kept apart where they belong to different
//! calls.

use vstd::prelude::*;
use vstd::string::*;
use crate::status::status_of;

pub use crate::status::MessageStatus;

pub use crate::query::{
    PhoneLookupParams, PhoneNumberAvailableQueryParams, PhoneNumberOwnedFilterParams,
    SubprojectQueryParams,
};

verus! {

/// A token for the relay API with the token that renews it.
#[derive(Default, Debug, Clone, PartialEq)]
pub struct JwtResponse {
    pub jwt_token: String,
    pub refresh_token: String,
}

/// The answer to a search for phone numbers that can be bought.
#[derive(Default, Debug, Clone, PartialEq)]
pub struct PhoneNumbersAvailableResponse {
    pub uri: String,
    /// On the wire: `available_phone_numbers`.
    pub phone_numbers_available: Vec<PhoneNumberAvailable>,
}

/// A phone number that can be bought.
#[derive(Default, Debug, Clone, PartialEq)]
pub struct PhoneNumberAvailable {
    pub beta: bool,
    pub capabilities: Capabilities,
    pub friendly_name: String,
    pub iso_country: String,
    pub lata: Option<String>,
    /// The bits of the IEEE 754 double that the server sent.
    pub latitude: Option<u64>,
    /// The bits of the IEEE 754 double that the server sent.
    pub longitude: Option<u64>,
    pub phone_number: String,
    pub postal_code: Option<String>,
    pub rate_center: String,
    pub region: String,
}

/// What a number on offer can do. A capability that the server leaves out is `None`.
#[derive(Default, Debug, Clone, PartialEq)]
pub struct Capabilities {
    pub voice: Option<bool>,
    /// On the wire: `SMS`.
    pub sms: Option<bool>,
    /// On the wire: `MMS`.
    pub mms: Option<bool>,
    pub fax: Option<bool>,
}

/// One page of the phone numbers that the project owns.
#[derive(Default, Debug, Clone, PartialEq)]
pub struct PhoneNumbersOwnedResponse {
    pub links: Links,
    pub data: Vec<Daum>,
}

/// The addresses of the pages of a listing, as the server gives them.
#[derive(Default, Debug, Clone, PartialEq)]
pub struct Links {
    /// On the wire: `self`.
    pub self_field: String,
    pub first: String,
    pub next: Option<String>,
    pub prev: Option<String>,
}

/// A phone number that the project owns, with its settings.
#[derive(Default, Debug, Clone, PartialEq)]
pub struct Daum {
    pub id: String,
    pub number: String,
    pub name: Option<String>,
    pub call_handler: Option<String>,
    pub call_receive_mode: Option<String>,
    pub call_request_url: Option<String>,
    pub call_request_method: Option<String>,
    pub call_fallback_url: Option<String>,
    pub call_fallback_method: Option<String>,
    pub call_status_callback_url: Option<String>,
    pub call_status_callback_method: Option<String>,
    pub call_laml_application_id: Option<String>,
    pub call_dialogflow_agent_id: Option<String>,
    pub call_relay_topic: Option<String>,
    pub call_relay_topic_status_callback_url: Option<String>,
    pub call_relay_context: Option<String>,
    pub call_relay_context_status_callback_url: Option<String>,
    pub call_relay_application: Option<String>,
    pub call_relay_connector_id: Option<String>,
    pub call_sip_endpoint_id: Option<String>,
    pub call_verto_resource: Option<String>,
    pub call_video_room_id: Option<String>,
    pub message_handler: Option<String>,
    pub message_request_url: Option<String>,
    pub message_request_method: Option<String>,
    pub message_fallback_url: Option<String>,
    pub message_fallback_method: Option<String>,
    pub message_laml_application_id: Option<String>,
    pub message_relay_topic: Option<String>,
    pub message_relay_context: Option<String>,
    pub message_relay_application: Option<String>,
    pub capabilities: Vec<String>,
    pub number_type: Option<String>,
    pub e911_address_id: Option<String>,
    pub created_at: Option<String>,
    pub updated_at: Option<String>,
    pub next_billed_at: Option<String>,
}

/// The body of a purchase: the number to buy.
#[derive(Default, Debug, Clone, PartialEq)]
pub struct BuyPhoneNumberRequest {
    pub number: String,
}

/// The phone number that was bought, with its settings.
#[derive(Default, Debug, Clone, PartialEq)]
pub struct BuyPhoneNumberResponse {
    pub id: String,
    pub number: String,
    pub name: Option<String>,
    pub call_handler: Option<String>,
    pub call_receive_mode: Option<String>,
    pub call_request_url: Option<String>,
    pub call_request_method: Option<String>,
    pub call_fallback_url: Option<String>,
    pub call_fallback_method: Option<String>,
    pub call_status_callback_url: Option<String>,
    pub call_status_callback_method: Option<String>,
    pub call_laml_application_id: Option<String>,
    pub call_dialogflow_agent_id: Option<String>,
    pub call_relay_topic: Option<String>,
    pub call_relay_topic_status_callback_url: Option<String>,
    pub call_relay_context: Option<String>,
    pub call_relay_context_status_callback_url: Option<String>,
    pub call_relay_application: Option<String>,
    pub call_relay_connector_id: Option<String>,
    pub call_sip_endpoint_id: Option<String>,
    pub call_verto_resource: Option<String>,
    pub call_video_room_id: Option<String>,
    pub message_handler: Option<String>,
    pub message_request_url: Option<String>,
    pub message_request_method: Option<String>,
    pub message_fallback_url: Option<String>,
    pub message_fallback_method: Option<String>,
    pub message_laml_application_id: Option<String>,
    pub message_relay_topic: Option<String>,
    pub message_relay_context: Option<String>,
    pub message_relay_application: Option<String>,
    pub capabilities: Vec<String>,
    pub number_type: Option<String>,
    pub e911_address_id: Option<String>,
    pub created_at: Option<String>,
    pub updated_at: Option<String>,
    pub next_billed_at: Option<String>,
}

/// A text message to send.
#[derive(Default, Debug, Clone, PartialEq)]
pub struct SmsMessage {
    pub body: String,
    pub from: String,
    pub to: String,
}

/// A message as the server describes it, after sending it or when asked for its status.
#[derive(Default, Debug, Clone, PartialEq)]
pub struct SmsResponse {
    pub sid: String,
    pub date_created: String,
    pub date_updated: String,
    pub date_sent: Option<String>,
    pub account_sid: String,
    pub to: String,
    pub from: String,
    pub messaging_service_sid: Option<String>,
    pub body: String,
    /// The status as the server writes it; see `get_status`.
    pub status: String,
    pub num_segments: i32,
    pub num_media: i32,
    pub direction: String,
    pub api_version: String,
    /// The bits of the IEEE 754 double that the server sent.
    pub price: Option<u64>,
    pub price_unit: Option<String>,
    pub error_code: Option<String>,
    pub error_message: Option<String>,
    pub uri: String,
    /// Left empty where the server sends none.
    pub subresource_uris: SubresourceUris,
}

/// The addresses of what belongs to a message.
#[derive(Default, Debug, Clone, PartialEq)]
pub struct SubresourceUris {
    /// Left empty where the server sends none.
    pub media: String,
}

/// A subproject, or the project itself, as the server describes it.
#[derive(Default, Debug, Clone, PartialEq)]
pub struct SubprojectResponse {
    pub sid: String,
    pub friendly_name: String,
    pub status: String,
    pub auth_token: String,
    pub date_created: String,
    pub date_updated: String,
    /// On the wire: `type`.
    pub account_type: Option<String>,
    pub owner_account_sid: Option<String>,
    pub uri: Option<String>,
    pub subproject: Option<bool>,
    pub signing_key: Option<String>,
    pub subresource_uris: SubprojectResourceUris,
}

/// The addresses of what belongs to a subproject.
#[derive(Default, Debug, Clone, PartialEq)]
pub struct SubprojectResourceUris {
    pub addresses: Option<String>,
    pub available_phone_numbers: Option<String>,
    pub applications: Option<String>,
    pub authorized_connect_apps: Option<String>,
    pub calls: Option<String>,
    pub conferences: Option<String>,
    pub connect_apps: Option<String>,
    pub incoming_phone_numbers: Option<String>,
    pub keys: Option<String>,
    pub notifications: Option<String>,
    pub outgoing_caller_ids: Option<String>,
    pub queues: Option<String>,
    pub recordings: Option<String>,
    pub sandbox: Option<String>,
    pub sip: Option<String>,
    pub short_codes: Option<String>,
    pub messages: Option<String>,
    pub transcriptions: Option<String>,
    pub usage: Option<String>,
}

/// One page of the subprojects of the project.
#[derive(Default, Debug, Clone, PartialEq)]
pub struct SubprojectsListResponse {
    pub uri: Option<String>,
    pub first_page_uri: String,
    pub next_page_uri: Option<String>,
    pub previous_page_uri: Option<String>,
    pub page: Option<i32>,
    pub page_size: Option<i32>,
    pub accounts: Vec<SubprojectResponse>,
}

/// What creating a subproject takes.
#[derive(Debug, Clone, PartialEq)]
pub struct CreateSubprojectRequest {
    pub friendly_name: String,
}

/// What updating a subproject takes.
#[derive(Debug, Clone, PartialEq)]
pub struct UpdateSubprojectRequest {
    pub friendly_name: String,
    /// `active` or `suspended`.
    pub status: Option<String>,
}

/// One page of the phone numbers of a subproject.
#[derive(Default, Debug, Clone, PartialEq)]
pub struct SubprojectPhoneNumbersResponse {
    pub uri: String,
    pub first_page_uri: String,
    pub next_page_uri: Option<String>,
    pub previous_page_uri: Option<String>,
    pub page: i32,
    pub page_size: i32,
    pub incoming_phone_numbers: Vec<SubprojectPhoneNumber>,
}

/// A phone number of a subproject, with its settings.
#[derive(Default, Debug, Clone, PartialEq)]
pub struct SubprojectPhoneNumber {
    pub sid: String,
    pub account_sid: String,
    pub friendly_name: String,
    pub phone_number: String,
    pub voice_url: Option<String>,
    pub voice_method: Option<String>,
    pub voice_fallback_url: Option<String>,
    pub voice_fallback_method: Option<String>,
    pub status_callback: Option<String>,
    pub status_callback_method: Option<String>,
    pub voice_caller_id_lookup: Option<bool>,
    pub voice_application_sid: Option<String>,
    pub date_created: String,
    pub date_updated: String,
    pub sms_url: Option<String>,
    pub sms_method: Option<String>,
    pub sms_fallback_url: Option<String>,
    pub sms_fallback_method: Option<String>,
    pub sms_application_sid: Option<String>,
    pub capabilities: PhoneNumberCapabilities,
    pub beta: bool,
    pub uri: String,
    pub trunk_sid: Option<String>,
    pub emergency_status: Option<String>,
    pub emergency_address_sid: Option<String>,
    pub emergency_address_status: Option<String>,
    pub status: Option<String>,
}

/// What a number of a subproject can do.
#[derive(Default, Debug, Clone, PartialEq)]
pub struct PhoneNumberCapabilities {
    pub voice: bool,
    pub sms: bool,
    pub mms: bool,
    pub fax: bool,
}

/// What a lookup found out about a phone number.
#[derive(Default, Debug, Clone, PartialEq)]
pub struct PhoneLookupResponse {
    pub country_code_number: Option<i32>,
    pub national_number: Option<String>,
    pub possible_number: Option<bool>,
    pub valid_number: Option<bool>,
    pub national_number_formatted: Option<String>,
    pub international_number_formatted: Option<String>,
    pub e164: Option<String>,
    pub location: Option<String>,
    pub country_code: String,
    pub timezones: Option<Vec<String>>,
    pub number_type: Option<String>,
    /// Never sent by the server: left empty.
    pub phone_number: String,
    /// Never sent by the server: left empty.
    pub national_format: String,
    /// Never sent by the server: left `false`.
    pub valid: bool,
    /// Never sent by the server: left `None`.
    pub validation_errors: Option<Vec<String>>,
    /// Never sent by the server: left `false`.
    pub formatted: bool,
    /// Never sent by the server: left `None`.
    pub url: Option<String>,
    /// Never sent by the server: left `None`.
    pub carrier: Option<CarrierInfo>,
    /// Never sent by the server: left `None`.
    pub caller_name: Option<CallerNameInfo>,
}

/// The carrier of a phone number.
#[derive(Default, Debug, Clone, PartialEq)]
pub struct CarrierInfo {
    pub mobile_country_code: Option<String>,
    pub mobile_network_code: Option<String>,
    pub name: Option<String>,
    pub type_field: Option<String>,
    pub error_code: Option<String>,
}

/// The caller name of a phone number.
#[derive(Default, Debug, Clone, PartialEq)]
pub struct CallerNameInfo {
    pub caller_name: Option<String>,
    pub caller_type: Option<String>,
    pub error_code: Option<String>,
}

impl SmsResponse {
    /// The status of the message, read from the text that the server sent.
    pub fn get_status(&self) -> (status: MessageStatus)
        ensures
            status == status_of(self.status@),
    {
        MessageStatus::from(self.status.as_str())
    }
}

/// The text that an optional text stands for: itself, or the empty text.
pub open spec fn text_or_empty(text: Option<String>) -> Seq<char> {
    match text {
        Some(text) => text@,
        None => Seq::empty(),
    }
}

/// The text that an optional text stands for: itself, or the empty text.
fn or_empty(text: &Option<String>) -> (r: &str)
    ensures
        r@ == text_or_empty(*text),
{
    match text {
        Some(text) => text.as_str(),
        None => {
            proof {
                reveal_strlit("");
            }
            ""
        },
    }
}

impl PhoneLookupResponse {
    /// The phone number in E.164 form, or the empty text where the server sent none.
    pub fn get_phone_number(&self) -> (number: &str)
        ensures
            number@ == text_or_empty(self.e164),
    {
        or_empty(&self.e164)
    }

    /// The phone number as it is written in its country, or the empty text
    /// where the server sent none.
    pub fn get_national_format(&self) -> (number: &str)
        ensures
            number@ == text_or_empty(self.national_number_formatted),
    {
        or_empty(&self.national_number_formatted)
    }

    /// Whether the server found the number valid. A lookup that does not say
    /// so counts as not valid.
    pub fn is_valid(&self) -> (valid: bool)
        ensures
            valid == (self.valid_number == Some(true)),
    {
        match self.valid_number {
            Some(valid) => valid,
            None => false,
        }
    }
}

} // verus!
