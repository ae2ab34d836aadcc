//! The calls of the API. For each call the client writes the request to send,
//! and says what the answer means once it is there.

use vstd::prelude::*;
use vstd::string::*;
use crate::address::{query_fits, too_long_text, url_refusal, url_with_params, with_query};
use crate::errors::{ErrorView, SignalWireError};
use crate::http::{
    can_parse, classified_without_body, classify_without_body, interpret, interpreted,
    unit_result_view, HttpMethod, HttpOutcome, HttpRequest, HttpRequestView, RequestBody,
    RequestBodyView, Target, TargetView,
};
use crate::json::{json_string, number_object, purchase_body};
use crate::query::appended;
use crate::types::{
    BuyPhoneNumberResponse, JwtResponse, PhoneNumbersAvailableResponse, PhoneNumbersOwnedResponse,
    SmsMessage, SmsResponse, SubprojectPhoneNumbersResponse, SubprojectResponse,
    SubprojectsListResponse,
};

verus! {

/// The credentials of a project and the space it lives in. Every request is
/// sent with the project identifier as user name and the key as password.
#[derive(Debug, Clone, PartialEq)]
pub struct SignalWireClient {
    pub project_id: String,
    pub api_key: String,
    pub space_name: String,
}

/// A result that holds a request or an error, with their texts as sequences
/// of characters.
pub open spec fn request_result_view(result: Result<HttpRequest, SignalWireError>) -> Result<
    HttpRequestView,
    ErrorView,
> {
    match result {
        Ok(request) => Ok(request@),
        Err(error) => Err(error@),
    }
}

/// The pairs of the form that sends a message.
pub open spec fn message_form(from: Seq<char>, to: Seq<char>, body: Seq<char>) -> Seq<
    (Seq<char>, Seq<char>),
> {
    seq![("From"@, from), ("To"@, to), ("Body"@, body)]
}

/// The pairs of the form that creates or updates a subproject: its name,
/// and its status where one is given.
pub open spec fn subproject_form(friendly_name: Seq<char>, status: Option<Seq<char>>) -> Seq<
    (Seq<char>, Seq<char>),
> {
    match status {
        Some(status) => seq![("FriendlyName"@, friendly_name), ("Status"@, status)],
        None => seq![("FriendlyName"@, friendly_name)],
    }
}

impl SignalWireClient {
    /// Whether space, project and key are all there: none of them is empty.
    pub open spec fn well_formed(&self) -> bool {
        &&& self.space_name@.len() > 0
        &&& self.project_id@.len() > 0
        &&& self.api_key@.len() > 0
    }

    /// The address of the token exchange.
    pub open spec fn jwt_url(&self) -> Seq<char> {
        "https://"@ + self.space_name@ + ".signalwire.com/api/relay/rest/jwt"@
    }

    /// The address of the search for numbers on offer in a country.
    pub open spec fn available_numbers_url(&self, iso_country: Seq<char>) -> Seq<char> {
        "https://"@ + self.space_name@ + ".signalwire.com/api/laml/2010-04-01/Accounts/"@
            + self.project_id@ + "/AvailablePhoneNumbers/"@ + iso_country + "/Local"@
    }

    /// The address of the phone numbers that the project owns.
    pub open spec fn phone_numbers_url(&self) -> Seq<char> {
        "https://"@ + self.space_name@ + ".signalwire.com/api/relay/rest/phone_numbers"@
    }

    /// The address of the messages of the project.
    pub open spec fn messages_url(&self) -> Seq<char> {
        "https://"@ + self.space_name@ + ".signalwire.com/api/laml/2010-04-01/Accounts/"@
            + self.project_id@ + "/Messages"@
    }

    /// The address of one message.
    pub open spec fn message_url(&self, message_sid: Seq<char>) -> Seq<char> {
        "https://"@ + self.space_name@ + ".signalwire.com/api/laml/2010-04-01/Accounts/"@
            + self.project_id@ + "/Messages/"@ + message_sid
    }

    /// The address of the subprojects.
    pub open spec fn accounts_url(&self) -> Seq<char> {
        "https://"@ + self.space_name@ + ".signalwire.com/api/laml/2010-04-01/Accounts"@
    }

    /// The address of one subproject.
    pub open spec fn account_url(&self, subproject_sid: Seq<char>) -> Seq<char> {
        "https://"@ + self.space_name@ + ".signalwire.com/api/laml/2010-04-01/Accounts/"@
            + subproject_sid
    }

    /// The address of the phone numbers of one subproject.
    pub open spec fn incoming_numbers_url(&self, subproject_sid: Seq<char>) -> Seq<char> {
        "https://"@ + self.space_name@ + ".signalwire.com/api/laml/2010-04-01/Accounts/"@
            + subproject_sid + "/IncomingPhoneNumbers"@
    }

    /// The request to an address, with the credentials of the client.
    pub open spec fn request_view(
        &self,
        method: HttpMethod,
        url: Seq<char>,
        body: RequestBodyView,
    ) -> HttpRequestView {
        HttpRequestView {
            method,
            url,
            username: self.project_id@,
            password: self.api_key@,
            body,
        }
    }

    /// What a request with a query ends in: the `GET` request to the address
    /// that the parser wrote for the base address and the pairs, or
    /// `Unexpected` where the input is too long or the parser refuses the
    /// base address, then with the parser's words.
    pub open spec fn query_request_view(
        &self,
        base: Seq<char>,
        params: Seq<(Seq<char>, Seq<char>)>,
        result: Result<HttpRequestView, ErrorView>,
    ) -> bool {
        if !query_fits(base, params) {
            result == Err::<HttpRequestView, ErrorView>(ErrorView::Unexpected(too_long_text()))
        } else {
            match url_with_params(base, params) {
                Some(address) => result == Ok::<HttpRequestView, ErrorView>(
                    self.request_view(HttpMethod::Get, address, RequestBodyView::Absent),
                ),
                None => result == Err::<HttpRequestView, ErrorView>(
                    ErrorView::Unexpected(url_refusal(base, params)),
                ),
            }
        }
    }

    /// A client for a space, with the credentials of a project.
    pub fn new(space_name: &str, project_id: &str, api_key: &str) -> (client: Self)
        ensures
            client.space_name@ == space_name@,
            client.project_id@ == project_id@,
            client.api_key@ == api_key@,
            client.well_formed() <==> space_name@.len() > 0 && project_id@.len() > 0
                && api_key@.len() > 0,
    {
        SignalWireClient {
            space_name: String::from_str(space_name),
            project_id: String::from_str(project_id),
            api_key: String::from_str(api_key),
        }
    }

    /// The address of the token exchange.
    pub fn jwt_address(&self) -> (url: String)
        ensures
            url@ == self.jwt_url(),
    {
        String::from_str("https://").concat(self.space_name.as_str()).concat(
            ".signalwire.com/api/relay/rest/jwt",
        )
    }

    /// The address of the search for numbers on offer in a country.
    pub fn available_numbers_address(&self, iso_country: &str) -> (url: String)
        ensures
            url@ == self.available_numbers_url(iso_country@),
    {
        String::from_str("https://").concat(self.space_name.as_str()).concat(
            ".signalwire.com/api/laml/2010-04-01/Accounts/",
        ).concat(self.project_id.as_str()).concat("/AvailablePhoneNumbers/").concat(
            iso_country,
        ).concat("/Local")
    }

    /// The address of the phone numbers that the project owns.
    pub fn phone_numbers_address(&self) -> (url: String)
        ensures
            url@ == self.phone_numbers_url(),
    {
        String::from_str("https://").concat(self.space_name.as_str()).concat(
            ".signalwire.com/api/relay/rest/phone_numbers",
        )
    }

    /// The address of the messages of the project.
    pub fn messages_address(&self) -> (url: String)
        ensures
            url@ == self.messages_url(),
    {
        String::from_str("https://").concat(self.space_name.as_str()).concat(
            ".signalwire.com/api/laml/2010-04-01/Accounts/",
        ).concat(self.project_id.as_str()).concat("/Messages")
    }

    /// The address of one message.
    pub fn message_address(&self, message_sid: &str) -> (url: String)
        ensures
            url@ == self.message_url(message_sid@),
    {
        String::from_str("https://").concat(self.space_name.as_str()).concat(
            ".signalwire.com/api/laml/2010-04-01/Accounts/",
        ).concat(self.project_id.as_str()).concat("/Messages/").concat(message_sid)
    }

    /// The address of the subprojects.
    pub fn accounts_address(&self) -> (url: String)
        ensures
            url@ == self.accounts_url(),
    {
        String::from_str("https://").concat(self.space_name.as_str()).concat(
            ".signalwire.com/api/laml/2010-04-01/Accounts",
        )
    }

    /// The address of one subproject.
    pub fn account_address(&self, subproject_sid: &str) -> (url: String)
        ensures
            url@ == self.account_url(subproject_sid@),
    {
        String::from_str("https://").concat(self.space_name.as_str()).concat(
            ".signalwire.com/api/laml/2010-04-01/Accounts/",
        ).concat(subproject_sid)
    }

    /// The address of the phone numbers of one subproject.
    pub fn incoming_numbers_address(&self, subproject_sid: &str) -> (url: String)
        ensures
            url@ == self.incoming_numbers_url(subproject_sid@),
    {
        String::from_str("https://").concat(self.space_name.as_str()).concat(
            ".signalwire.com/api/laml/2010-04-01/Accounts/",
        ).concat(subproject_sid).concat("/IncomingPhoneNumbers")
    }

    /// The request to an address, with the credentials of the client.
    pub fn request(&self, method: HttpMethod, url: String, body: RequestBody) -> (request:
        HttpRequest)
        ensures
            request@ == self.request_view(method, url@, body@),
    {
        HttpRequest {
            method,
            url,
            username: self.project_id.clone(),
            password: self.api_key.clone(),
            body,
        }
    }

    /// The `GET` request to a base address with the pairs of a query.
    fn query_request(&self, base: String, params: &[(String, String)]) -> (r: Result<
        HttpRequest,
        SignalWireError,
    >)
        ensures
            self.query_request_view(base@, params.deep_view(), request_result_view(r)),
    {
        match with_query(base.as_str(), params) {
            Ok(address) => Ok(self.request(HttpMethod::Get, address, RequestBody::Absent)),
            Err(error) => Err(error),
        }
    }
}

impl SignalWireClient {
    /// The request that exchanges the credentials for a token: a `POST`
    /// with an empty body.
    pub fn get_jwt_request(&self) -> (request: HttpRequest)
        ensures
            request@ == self.request_view(
                HttpMethod::Post,
                self.jwt_url(),
                RequestBodyView::Empty,
            ),
    {
        self.request(HttpMethod::Post, self.jwt_address(), RequestBody::Empty)
    }

    /// What the answer to the token exchange means.
    pub fn get_jwt_response<P>(
        outcome: HttpOutcome,
        parse: P,
    ) -> (r: Result<JwtResponse, SignalWireError>) where
        P: FnOnce(&str) -> Result<JwtResponse, String>,
        requires
            can_parse(outcome@, TargetView::Collection, parse),
        ensures
            interpreted(outcome@, TargetView::Collection, parse, r),
    {
        interpret(outcome, Target::Collection, parse)
    }

    /// The request that searches the numbers on offer in a country, with
    /// the pairs of `query_params` as its query.
    pub fn get_phone_numbers_available_request(
        &self,
        iso_country: &str,
        query_params: &[(String, String)],
    ) -> (r: Result<HttpRequest, SignalWireError>)
        ensures
            self.query_request_view(
                self.available_numbers_url(iso_country@),
                query_params.deep_view(),
                request_result_view(r),
            ),
    {
        self.query_request(self.available_numbers_address(iso_country), query_params)
    }

    /// What the answer to a search for numbers on offer means.
    pub fn get_phone_numbers_available_response<P>(
        outcome: HttpOutcome,
        parse: P,
    ) -> (r: Result<PhoneNumbersAvailableResponse, SignalWireError>) where
        P: FnOnce(&str) -> Result<PhoneNumbersAvailableResponse, String>,
        requires
            can_parse(outcome@, TargetView::Collection, parse),
        ensures
            interpreted(outcome@, TargetView::Collection, parse, r),
    {
        interpret(outcome, Target::Collection, parse)
    }

    /// The request that lists the numbers that the project owns, with the
    /// pairs of `query_params` as its query.
    pub fn get_phone_numbers_owned_request(&self, query_params: &[(String, String)]) -> (r: Result<
        HttpRequest,
        SignalWireError,
    >)
        ensures
            self.query_request_view(
                self.phone_numbers_url(),
                query_params.deep_view(),
                request_result_view(r),
            ),
    {
        self.query_request(self.phone_numbers_address(), query_params)
    }

    /// What the answer to a listing of owned numbers means.
    pub fn get_phone_numbers_owned_response<P>(
        outcome: HttpOutcome,
        parse: P,
    ) -> (r: Result<PhoneNumbersOwnedResponse, SignalWireError>) where
        P: FnOnce(&str) -> Result<PhoneNumbersOwnedResponse, String>,
        requires
            can_parse(outcome@, TargetView::Collection, parse),
        ensures
            interpreted(outcome@, TargetView::Collection, parse, r),
    {
        interpret(outcome, Target::Collection, parse)
    }

    /// The request that buys a phone number: a `POST` whose body is a JSON
    /// object with the one field `number`.
    pub fn buy_phone_number_request(&self, phone_number: &str) -> (request: HttpRequest)
        ensures
            request@ == self.request_view(
                HttpMethod::Post,
                self.phone_numbers_url(),
                RequestBodyView::Json(number_object(json_string(phone_number@))),
            ),
    {
        self.request(
            HttpMethod::Post,
            self.phone_numbers_address(),
            RequestBody::Json(purchase_body(phone_number)),
        )
    }

    /// What the answer to a purchase means.
    pub fn buy_phone_number_response<P>(
        outcome: HttpOutcome,
        parse: P,
    ) -> (r: Result<BuyPhoneNumberResponse, SignalWireError>) where
        P: FnOnce(&str) -> Result<BuyPhoneNumberResponse, String>,
        requires
            can_parse(outcome@, TargetView::Collection, parse),
        ensures
            interpreted(outcome@, TargetView::Collection, parse, r),
    {
        interpret(outcome, Target::Collection, parse)
    }

    /// The request that sends a message: a `POST` with the form `From`,
    /// `To`, `Body`.
    pub fn send_sms_request(&self, message: &SmsMessage) -> (request: HttpRequest)
        ensures
            request@ == self.request_view(
                HttpMethod::Post,
                self.messages_url(),
                RequestBodyView::Form(message_form(message.from@, message.to@, message.body@)),
            ),
    {
        let form = appended(Vec::new(), "From", message.from.as_str());
        let form = appended(form, "To", message.to.as_str());
        let form = appended(form, "Body", message.body.as_str());
        assert(form.deep_view() =~= message_form(message.from@, message.to@, message.body@));
        self.request(HttpMethod::Post, self.messages_address(), RequestBody::Form(form))
    }

    /// What the answer to sending a message means.
    pub fn send_sms_response<P>(
        outcome: HttpOutcome,
        parse: P,
    ) -> (r: Result<SmsResponse, SignalWireError>) where
        P: FnOnce(&str) -> Result<SmsResponse, String>,
        requires
            can_parse(outcome@, TargetView::Collection, parse),
        ensures
            interpreted(outcome@, TargetView::Collection, parse, r),
    {
        interpret(outcome, Target::Collection, parse)
    }

    /// The request that asks for a message by its SID.
    pub fn get_message_status_request(&self, message_sid: &str) -> (request: HttpRequest)
        ensures
            request@ == self.request_view(
                HttpMethod::Get,
                self.message_url(message_sid@),
                RequestBodyView::Absent,
            ),
    {
        self.request(HttpMethod::Get, self.message_address(message_sid), RequestBody::Absent)
    }

    /// What the answer to asking for a message means. A 404 says that there
    /// is no message with this SID.
    pub fn get_message_status_response<P>(
        message_sid: &str,
        outcome: HttpOutcome,
        parse: P,
    ) -> (r: Result<SmsResponse, SignalWireError>) where
        P: FnOnce(&str) -> Result<SmsResponse, String>,
        requires
            can_parse(outcome@, TargetView::Message(message_sid@), parse),
        ensures
            interpreted(outcome@, TargetView::Message(message_sid@), parse, r),
    {
        interpret(outcome, Target::Message(message_sid), parse)
    }

    /// The request that lists the subprojects, with the pairs of
    /// `query_params` as its query.
    pub fn list_subprojects_request(&self, query_params: &[(String, String)]) -> (r: Result<
        HttpRequest,
        SignalWireError,
    >)
        ensures
            self.query_request_view(
                self.accounts_url(),
                query_params.deep_view(),
                request_result_view(r),
            ),
    {
        self.query_request(self.accounts_address(), query_params)
    }

    /// What the answer to a listing of subprojects means.
    pub fn list_subprojects_response<P>(
        outcome: HttpOutcome,
        parse: P,
    ) -> (r: Result<SubprojectsListResponse, SignalWireError>) where
        P: FnOnce(&str) -> Result<SubprojectsListResponse, String>,
        requires
            can_parse(outcome@, TargetView::Collection, parse),
        ensures
            interpreted(outcome@, TargetView::Collection, parse, r),
    {
        interpret(outcome, Target::Collection, parse)
    }

    /// The request that asks for a subproject by its SID.
    pub fn get_subproject_request(&self, subproject_sid: &str) -> (request: HttpRequest)
        ensures
            request@ == self.request_view(
                HttpMethod::Get,
                self.account_url(subproject_sid@),
                RequestBodyView::Absent,
            ),
    {
        self.request(HttpMethod::Get, self.account_address(subproject_sid), RequestBody::Absent)
    }

    /// What the answer to asking for a subproject means. A 404 says that
    /// there is no subproject with this SID.
    pub fn get_subproject_response<P>(
        subproject_sid: &str,
        outcome: HttpOutcome,
        parse: P,
    ) -> (r: Result<SubprojectResponse, SignalWireError>) where
        P: FnOnce(&str) -> Result<SubprojectResponse, String>,
        requires
            can_parse(outcome@, TargetView::Subproject(subproject_sid@), parse),
        ensures
            interpreted(outcome@, TargetView::Subproject(subproject_sid@), parse, r),
    {
        interpret(outcome, Target::Subproject(subproject_sid), parse)
    }

    /// The request that creates a subproject: a `POST` with the form
    /// `FriendlyName`.
    pub fn create_subproject_request(&self, friendly_name: &str) -> (request: HttpRequest)
        ensures
            request@ == self.request_view(
                HttpMethod::Post,
                self.accounts_url(),
                RequestBodyView::Form(subproject_form(friendly_name@, None)),
            ),
    {
        let form = appended(Vec::new(), "FriendlyName", friendly_name);
        assert(form.deep_view() =~= subproject_form(friendly_name@, None));
        self.request(HttpMethod::Post, self.accounts_address(), RequestBody::Form(form))
    }

    /// What the answer to creating a subproject means.
    pub fn create_subproject_response<P>(
        outcome: HttpOutcome,
        parse: P,
    ) -> (r: Result<SubprojectResponse, SignalWireError>) where
        P: FnOnce(&str) -> Result<SubprojectResponse, String>,
        requires
            can_parse(outcome@, TargetView::Collection, parse),
        ensures
            interpreted(outcome@, TargetView::Collection, parse, r),
    {
        interpret(outcome, Target::Collection, parse)
    }

    /// The request that updates a subproject: a `POST` to its address with
    /// the form `FriendlyName` and, where a status is given, `Status`.
    pub fn update_subproject_request(
        &self,
        subproject_sid: &str,
        friendly_name: &str,
        status: Option<&str>,
    ) -> (request: HttpRequest)
        ensures
            request@ == self.request_view(
                HttpMethod::Post,
                self.account_url(subproject_sid@),
                RequestBodyView::Form(
                    subproject_form(
                        friendly_name@,
                        (match status {
                            Some(status) => Some(status@),
                            None => None,
                        }),
                    ),
                ),
            ),
    {
        let form = appended(Vec::new(), "FriendlyName", friendly_name);
        let form = match status {
            Some(status_value) => {
                let form = appended(form, "Status", status_value);
                assert(form.deep_view() =~= subproject_form(
                    friendly_name@,
                    Some(status_value@),
                ));
                form
            },
            None => {
                assert(form.deep_view() =~= subproject_form(friendly_name@, None));
                form
            },
        };
        self.request(
            HttpMethod::Post,
            self.account_address(subproject_sid),
            RequestBody::Form(form),
        )
    }

    /// What the answer to updating a subproject means. A 404 says that
    /// there is no subproject with this SID.
    pub fn update_subproject_response<P>(
        subproject_sid: &str,
        outcome: HttpOutcome,
        parse: P,
    ) -> (r: Result<SubprojectResponse, SignalWireError>) where
        P: FnOnce(&str) -> Result<SubprojectResponse, String>,
        requires
            can_parse(outcome@, TargetView::Subproject(subproject_sid@), parse),
        ensures
            interpreted(outcome@, TargetView::Subproject(subproject_sid@), parse, r),
    {
        interpret(outcome, Target::Subproject(subproject_sid), parse)
    }

    /// The request that deletes a subproject.
    pub fn delete_subproject_request(&self, subproject_sid: &str) -> (request: HttpRequest)
        ensures
            request@ == self.request_view(
                HttpMethod::Delete,
                self.account_url(subproject_sid@),
                RequestBodyView::Absent,
            ),
    {
        self.request(
            HttpMethod::Delete,
            self.account_address(subproject_sid),
            RequestBody::Absent,
        )
    }

    /// What the answer to deleting a subproject means. Success has no body:
    /// any status that is no error means that the subproject is gone. A 404
    /// says that there is no subproject with this SID.
    pub fn delete_subproject_response(subproject_sid: &str, outcome: HttpOutcome) -> (r: Result<
        (),
        SignalWireError,
    >)
        ensures
            unit_result_view(r) == classified_without_body(
                outcome@,
                TargetView::Subproject(subproject_sid@),
            ),
    {
        classify_without_body(outcome, Target::Subproject(subproject_sid))
    }

    /// The request that lists the phone numbers of a subproject, with the
    /// pairs of `query_params` as its query.
    pub fn get_subproject_phone_numbers_request(
        &self,
        subproject_sid: &str,
        query_params: &[(String, String)],
    ) -> (r: Result<HttpRequest, SignalWireError>)
        ensures
            self.query_request_view(
                self.incoming_numbers_url(subproject_sid@),
                query_params.deep_view(),
                request_result_view(r),
            ),
    {
        self.query_request(self.incoming_numbers_address(subproject_sid), query_params)
    }

    /// What the answer to a listing of the numbers of a subproject means.
    /// A 404 says that there is no subproject with this SID.
    pub fn get_subproject_phone_numbers_response<P>(
        subproject_sid: &str,
        outcome: HttpOutcome,
        parse: P,
    ) -> (r: Result<SubprojectPhoneNumbersResponse, SignalWireError>) where
        P: FnOnce(&str) -> Result<SubprojectPhoneNumbersResponse, String>,
        requires
            can_parse(outcome@, TargetView::Subproject(subproject_sid@), parse),
        ensures
            interpreted(outcome@, TargetView::Subproject(subproject_sid@), parse, r),
    {
        interpret(outcome, Target::Subproject(subproject_sid), parse)
    }
}

} // verus!
