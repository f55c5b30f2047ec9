use vstd::prelude::*;

use crate::text::{dec_chars, is_prefix, str_starts_with, u16_to_string};

verus! {

/// One DynDNS provider mapping: a domain with the credentials that may update
/// it.
pub struct DynHostAccount {
    pub domain: String,
    pub username: String,
    pub password: String,
}

/// Mathematical image of a `DynHostAccount`.
pub struct DynHostAccountView {
    pub domain: Seq<char>,
    pub username: Seq<char>,
    pub password: Seq<char>,
}

impl View for DynHostAccount {
    type V = DynHostAccountView;

    open spec fn view(&self) -> DynHostAccountView {
        DynHostAccountView { domain: self.domain@, username: self.username@, password: self.password@ }
    }
}

/// The tri-state result of one provider update call.
pub enum UpdateOutcome {
    Updated,
    NoChange,
    Failed(String),
}

/// Mathematical image of an `UpdateOutcome`.
pub enum UpdateOutcomeView {
    Updated,
    NoChange,
    Failed(Seq<char>),
}

impl View for UpdateOutcome {
    type V = UpdateOutcomeView;

    open spec fn view(&self) -> UpdateOutcomeView {
        match self {
            UpdateOutcome::Updated => UpdateOutcomeView::Updated,
            UpdateOutcome::NoChange => UpdateOutcomeView::NoChange,
            UpdateOutcome::Failed(m) => UpdateOutcomeView::Failed(m@),
        }
    }
}

/// The provider's update endpoint for one domain and address.
pub open spec fn update_url_chars(domain: Seq<char>, ip: Seq<char>) -> Seq<char> {
    "https://www.ovh.com/nic/update?system=dyndns&hostname="@ + domain + "&myip="@ + ip
}

/// Builds the provider's update URL carrying the domain and the new address.
pub fn update_url(domain: &String, ip: &String) -> (r: String)
    ensures
        r@ == update_url_chars(domain@, ip@),
{
    let mut out = String::from_str("https://www.ovh.com/nic/update?system=dyndns&hostname=");
    out.append(domain.as_str());
    out.append("&myip=");
    out.append(ip.as_str());
    proof {
        assert(out@ =~= update_url_chars(domain@, ip@));
    }
    out
}

/// One fully addressed provider update call: the URL carrying domain and new
/// address, and the credentials for basic authentication.
pub struct ProviderRequest {
    pub url: String,
    pub username: String,
    pub password: String,
}

/// Builds one update call per configured account, in order, every one carrying
/// the same new address.
pub fn update_requests(accounts: &Vec<DynHostAccount>, ip: &String) -> (r: Vec<ProviderRequest>)
    ensures
        r@.len() == accounts@.len(),
        forall|i: int|
            0 <= i < accounts@.len() ==> {
                &&& (#[trigger] r@[i]).url@ == update_url_chars(accounts@[i]@.domain, ip@)
                &&& r@[i].username@ == accounts@[i]@.username
                &&& r@[i].password@ == accounts@[i]@.password
            },
{
    let mut out: Vec<ProviderRequest> = Vec::new();
    let n = accounts.len();
    let mut i: usize = 0;
    while i < n
        invariant
            0 <= i <= n,
            n == accounts@.len(),
            out@.len() == i,
            forall|t: int|
                0 <= t < i ==> {
                    &&& (#[trigger] out@[t]).url@ == update_url_chars(accounts@[t]@.domain, ip@)
                    &&& out@[t].username@ == accounts@[t]@.username
                    &&& out@[t].password@ == accounts@[t]@.password
                },
        decreases n - i,
    {
        let acc = &accounts[i];
        out.push(
            ProviderRequest {
                url: update_url(&acc.domain, ip),
                username: acc.username.clone(),
                password: acc.password.clone(),
            },
        );
        i = i + 1;
    }
    out
}

/// An HTTP status that counts as success.
pub open spec fn is_success_status(status: u16) -> bool {
    200 <= status < 300
}

/// The body prefix that announces a completed update of `ip`.
pub open spec fn good_prefix(ip: Seq<char>) -> Seq<char> {
    "good "@ + ip
}

/// The body prefix that announces that `ip` was already in place.
pub open spec fn nochg_prefix(ip: Seq<char>) -> Seq<char> {
    "nochg "@ + ip
}

/// The reason reported for a failing HTTP status.
pub open spec fn status_reason(status: u16) -> Seq<char> {
    "HTTP status "@ + dec_chars(status as int)
}

/// How one provider response reads: a success status with a body opening
/// `good <ip>` is a completed update, with `nochg <ip>` an address already in
/// place; any other body text fails with that text, and a failing status
/// fails naming the status.
pub open spec fn classify_update(status: u16, body: Seq<char>, ip: Seq<char>) -> UpdateOutcomeView {
    if !is_success_status(status) {
        UpdateOutcomeView::Failed(status_reason(status))
    } else if is_prefix(good_prefix(ip), body) {
        UpdateOutcomeView::Updated
    } else if is_prefix(nochg_prefix(ip), body) {
        UpdateOutcomeView::NoChange
    } else {
        UpdateOutcomeView::Failed(body)
    }
}

/// Classifies the response of one provider update call for the address `ip`.
pub fn classify_update_response(status: u16, body: &String, ip: &String) -> (r: UpdateOutcome)
    ensures
        r@ == classify_update(status, body@, ip@),
{
    if !(200 <= status && status < 300) {
        let mut reason = String::from_str("HTTP status ");
        let digits = u16_to_string(status);
        reason.append(digits.as_str());
        return UpdateOutcome::Failed(reason);
    }
    let mut good = String::from_str("good ");
    good.append(ip.as_str());
    if str_starts_with(body.as_str(), good.as_str()) {
        return UpdateOutcome::Updated;
    }
    let mut nochg = String::from_str("nochg ");
    nochg.append(ip.as_str());
    if str_starts_with(body.as_str(), nochg.as_str()) {
        return UpdateOutcome::NoChange;
    }
    UpdateOutcome::Failed(body.clone())
}

} // verus!
