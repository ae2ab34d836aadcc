//! Builders for the query parameters of the listing and search calls.
//!
//! Each builder collects pairs of a name and a value. A call appends one
//! pair; nothing is checked, merged or dropped, so the pairs leave `build`
//! as they came, in the order of the calls.

use vstd::prelude::*;
use vstd::string::*;

verus! {

/// The text that a flag is sent as.
pub open spec fn flag_text(flag: bool) -> Seq<char> {
    if flag {
        "true"@
    } else {
        "false"@
    }
}

/// The pairs that stand after `more` was appended to `start`, one pair at a time.
pub open spec fn appended_all(
    start: Seq<(Seq<char>, Seq<char>)>,
    more: Seq<(Seq<char>, Seq<char>)>,
) -> Seq<(Seq<char>, Seq<char>)>
    decreases more.len(),
{
    if more.len() == 0 {
        start
    } else {
        appended_all(start, more.drop_last()).push(more.last())
    }
}

/// Appends one pair to the pairs collected so far.
pub(crate) fn appended(params: Vec<(String, String)>, name: &str, value: &str) -> (r: Vec<
    (String, String),
>)
    ensures
        r.deep_view() == params.deep_view().push((name@, value@)),
{
    let mut params = params;
    params.push((String::from_str(name), String::from_str(value)));
    params
}

/// Appends one pair whose value is a flag.
fn appended_flag(params: Vec<(String, String)>, name: &str, flag: bool) -> (r: Vec<
    (String, String),
>)
    ensures
        r.deep_view() == params.deep_view().push((name@, flag_text(flag))),
{
    if flag {
        appended(params, name, "true")
    } else {
        appended(params, name, "false")
    }
}

/// Query parameters of a search for phone numbers that can be bought.
pub struct PhoneNumberAvailableQueryParams {
    params: Vec<(String, String)>,
}

impl View for PhoneNumberAvailableQueryParams {
    type V = Seq<(Seq<char>, Seq<char>)>;

    /// The pairs collected so far, in the order of the calls.
    closed spec fn view(&self) -> Seq<(Seq<char>, Seq<char>)> {
        self.params.deep_view()
    }
}

impl Default for PhoneNumberAvailableQueryParams {
    /// A builder that holds no pair.
    fn default() -> (r: Self)
        ensures
            r@ == Seq::<(Seq<char>, Seq<char>)>::empty(),
    {
        Self::new()
    }
}

impl PhoneNumberAvailableQueryParams {
    /// A builder that holds no pair.
    pub fn new() -> (r: Self)
        ensures
            r@ == Seq::<(Seq<char>, Seq<char>)>::empty(),
    {
        PhoneNumberAvailableQueryParams { params: Vec::new() }
    }

    /// Asks for numbers in this area code.
    pub fn area_code(self, code: &str) -> (r: Self)
        ensures
            r@ == self@.push(("AreaCode"@, code@)),
    {
        PhoneNumberAvailableQueryParams { params: appended(self.params, "AreaCode", code) }
    }

    /// Asks for, or leaves out, numbers that are new to the platform.
    pub fn beta(self, beta: bool) -> (r: Self)
        ensures
            r@ == self@.push(("Beta"@, flag_text(beta))),
    {
        PhoneNumberAvailableQueryParams { params: appended_flag(self.params, "Beta", beta) }
    }

    /// Asks for numbers that match this pattern.
    pub fn contains(self, value: &str) -> (r: Self)
        ensures
            r@ == self@.push(("Contains"@, value@)),
    {
        PhoneNumberAvailableQueryParams { params: appended(self.params, "Contains", value) }
    }

    /// Leaves out numbers that need an address of any kind.
    pub fn exclude_all_address_required(self, value: bool) -> (r: Self)
        ensures
            r@ == self@.push(("ExcludeAllAddressRequired"@, flag_text(value))),
    {
        PhoneNumberAvailableQueryParams {
            params: appended_flag(self.params, "ExcludeAllAddressRequired", value),
        }
    }

    /// Leaves out numbers that need a foreign address.
    pub fn exclude_foreign_address_required(self, value: bool) -> (r: Self)
        ensures
            r@ == self@.push(("ExcludeForeignAddressRequired"@, flag_text(value))),
    {
        PhoneNumberAvailableQueryParams {
            params: appended_flag(self.params, "ExcludeForeignAddressRequired", value),
        }
    }

    /// Leaves out numbers that need a local address.
    pub fn exclude_local_address_required(self, value: bool) -> (r: Self)
        ensures
            r@ == self@.push(("ExcludeLocalAddressRequired"@, flag_text(value))),
    {
        PhoneNumberAvailableQueryParams {
            params: appended_flag(self.params, "ExcludeLocalAddressRequired", value),
        }
    }

    /// Asks for numbers that can, or cannot, send and receive faxes.
    pub fn fax_enabled(self, enabled: bool) -> (r: Self)
        ensures
            r@ == self@.push(("FaxEnabled"@, flag_text(enabled))),
    {
        PhoneNumberAvailableQueryParams {
            params: appended_flag(self.params, "FaxEnabled", enabled),
        }
    }

    /// Asks for numbers in this region.
    pub fn in_region(self, region: &str) -> (r: Self)
        ensures
            r@ == self@.push(("InRegion"@, region@)),
    {
        PhoneNumberAvailableQueryParams { params: appended(self.params, "InRegion", region) }
    }

    /// Asks for numbers that can, or cannot, send and receive MMS.
    pub fn mms_enabled(self, enabled: bool) -> (r: Self)
        ensures
            r@ == self@.push(("MmsEnabled"@, flag_text(enabled))),
    {
        PhoneNumberAvailableQueryParams {
            params: appended_flag(self.params, "MmsEnabled", enabled),
        }
    }

    /// Asks for numbers that can, or cannot, send and receive SMS.
    pub fn sms_enabled(self, enabled: bool) -> (r: Self)
        ensures
            r@ == self@.push(("SmsEnabled"@, flag_text(enabled))),
    {
        PhoneNumberAvailableQueryParams {
            params: appended_flag(self.params, "SmsEnabled", enabled),
        }
    }

    /// Asks for numbers that can, or cannot, make and receive calls.
    pub fn voice_enabled(self, enabled: bool) -> (r: Self)
        ensures
            r@ == self@.push(("VoiceEnabled"@, flag_text(enabled))),
    {
        PhoneNumberAvailableQueryParams {
            params: appended_flag(self.params, "VoiceEnabled", enabled),
        }
    }

    /// The pairs collected, in the order of the calls.
    pub fn build(self) -> (pairs: Vec<(String, String)>)
        ensures
            pairs.deep_view() == self@,
    {
        self.params
    }
}

/// Query parameters of a listing of the phone numbers that the project owns.
pub struct PhoneNumberOwnedFilterParams {
    params: Vec<(String, String)>,
}

impl View for PhoneNumberOwnedFilterParams {
    type V = Seq<(Seq<char>, Seq<char>)>;

    /// The pairs collected so far, in the order of the calls.
    closed spec fn view(&self) -> Seq<(Seq<char>, Seq<char>)> {
        self.params.deep_view()
    }
}

impl Default for PhoneNumberOwnedFilterParams {
    /// A builder that holds no pair.
    fn default() -> (r: Self)
        ensures
            r@ == Seq::<(Seq<char>, Seq<char>)>::empty(),
    {
        Self::new()
    }
}

impl PhoneNumberOwnedFilterParams {
    /// A builder that holds no pair.
    pub fn new() -> (r: Self)
        ensures
            r@ == Seq::<(Seq<char>, Seq<char>)>::empty(),
    {
        PhoneNumberOwnedFilterParams { params: Vec::new() }
    }

    /// Asks for numbers with this name.
    pub fn filter_name(self, name: &str) -> (r: Self)
        ensures
            r@ == self@.push(("filter_name"@, name@)),
    {
        PhoneNumberOwnedFilterParams { params: appended(self.params, "filter_name", name) }
    }

    /// Asks for numbers that match this number.
    pub fn filter_number(self, number: &str) -> (r: Self)
        ensures
            r@ == self@.push(("filter_number"@, number@)),
    {
        PhoneNumberOwnedFilterParams { params: appended(self.params, "filter_number", number) }
    }

    /// The pairs collected, in the order of the calls.
    pub fn build(self) -> (pairs: Vec<(String, String)>)
        ensures
            pairs.deep_view() == self@,
    {
        self.params
    }
}

/// Query parameters of a listing of subprojects.
pub struct SubprojectQueryParams {
    params: Vec<(String, String)>,
}

impl View for SubprojectQueryParams {
    type V = Seq<(Seq<char>, Seq<char>)>;

    /// The pairs collected so far, in the order of the calls.
    closed spec fn view(&self) -> Seq<(Seq<char>, Seq<char>)> {
        self.params.deep_view()
    }
}

impl Default for SubprojectQueryParams {
    /// A builder that holds no pair.
    fn default() -> (r: Self)
        ensures
            r@ == Seq::<(Seq<char>, Seq<char>)>::empty(),
    {
        Self::new()
    }
}

impl SubprojectQueryParams {
    /// A builder that holds no pair.
    pub fn new() -> (r: Self)
        ensures
            r@ == Seq::<(Seq<char>, Seq<char>)>::empty(),
    {
        SubprojectQueryParams { params: Vec::new() }
    }

    /// Asks for subprojects with this name.
    pub fn friendly_name(self, friendly_name: &str) -> (r: Self)
        ensures
            r@ == self@.push(("FriendlyName"@, friendly_name@)),
    {
        SubprojectQueryParams { params: appended(self.params, "FriendlyName", friendly_name) }
    }

    /// Asks for subprojects in this status.
    pub fn status(self, status: &str) -> (r: Self)
        ensures
            r@ == self@.push(("Status"@, status@)),
    {
        SubprojectQueryParams { params: appended(self.params, "Status", status) }
    }

    /// The pairs collected, in the order of the calls.
    pub fn build(self) -> (pairs: Vec<(String, String)>)
        ensures
            pairs.deep_view() == self@,
    {
        self.params
    }
}

/// Query parameters of a phone number lookup.
pub struct PhoneLookupParams {
    params: Vec<(String, String)>,
}

impl View for PhoneLookupParams {
    type V = Seq<(Seq<char>, Seq<char>)>;

    /// The pairs collected so far, in the order of the calls.
    closed spec fn view(&self) -> Seq<(Seq<char>, Seq<char>)> {
        self.params.deep_view()
    }
}

impl Default for PhoneLookupParams {
    /// A builder that holds no pair.
    fn default() -> (r: Self)
        ensures
            r@ == Seq::<(Seq<char>, Seq<char>)>::empty(),
    {
        Self::new()
    }
}

impl PhoneLookupParams {
    /// A builder that holds no pair.
    pub fn new() -> (r: Self)
        ensures
            r@ == Seq::<(Seq<char>, Seq<char>)>::empty(),
    {
        PhoneLookupParams { params: Vec::new() }
    }

    /// Asks for the carrier of the number. Asking twice, or for the caller
    /// name too, sends one `Type` pair for each call.
    pub fn with_carrier(self) -> (r: Self)
        ensures
            r@ == self@.push(("Type"@, "carrier"@)),
    {
        PhoneLookupParams { params: appended(self.params, "Type", "carrier") }
    }

    /// Asks for the caller name of the number. Asking twice, or for the
    /// carrier too, sends one `Type` pair for each call.
    pub fn with_caller_name(self) -> (r: Self)
        ensures
            r@ == self@.push(("Type"@, "caller-name"@)),
    {
        PhoneLookupParams { params: appended(self.params, "Type", "caller-name") }
    }

    /// The pairs collected, in the order of the calls.
    pub fn build(self) -> (pairs: Vec<(String, String)>)
        ensures
            pairs.deep_view() == self@,
    {
        self.params
    }
}

/// Appending one pair keeps every pair that was there at its place and puts
/// the new one behind them, whether or not an equal pair is there already.
pub proof fn law_append_keeps_the_order(
    pairs: Seq<(Seq<char>, Seq<char>)>,
    pair: (Seq<char>, Seq<char>),
)
    ensures
        pairs.push(pair).len() == pairs.len() + 1,
        pairs.push(pair).last() == pair,
        forall|at: int| 0 <= at < pairs.len() ==> pairs.push(pair)[at] == pairs[at],
        pairs.push(pair).drop_last() == pairs,
{
}

/// Appending pairs one at a time to nothing gives exactly those pairs: each
/// one at the place where it was appended, none added, none dropped, one that
/// was appended twice held twice. A builder starts with nothing, each of its
/// calls appends one pair, and `build` hands out the pairs as they stand.
pub proof fn law_pairs_stay_as_appended(more: Seq<(Seq<char>, Seq<char>)>)
    ensures
        appended_all(Seq::empty(), more) == more,
    decreases more.len(),
{
    if more.len() > 0 {
        law_pairs_stay_as_appended(more.drop_last());
    }
}

} // verus!
