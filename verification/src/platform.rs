//! PlatformClient data: typed request payloads and decoded responses of
//! the platform's menu-detail, option-detail and status-activation
//! endpoints, the exact JSON text each payload serializes to, and the
//! classification of responses for the retry policy.
//!
//! The HTTP transport itself lives outside the library; callers serialize
//! the bodies built here, send them, and hand the decoded responses back.

use vstd::prelude::*;

use crate::cipher::{spec_encrypted_value, encrypt_migros, CipherError};
use crate::flagger::{ChangeTarget, StatusChange};
use crate::json::{json_quote, json_string};
use crate::text::{dec_rep_signed, i64_to_string};

verus! {

use vstd::utf8::encode_utf8;

/// Request payload of the menu-details endpoint.
#[derive(Clone, Debug)]
pub struct MigrosPayloadMenuDetails {
    pub store_id: i64,
    pub store_group_id: i64,
}

/// Request payload of the option-details endpoint.
#[derive(Clone, Debug)]
pub struct MigrosPayloadOptions {
    pub menu_id: i64,
}

/// The single opaque field the platform accepts as an encrypted request
/// parameter.
#[derive(Clone, Debug)]
pub struct MigrosEncryptedPayload {
    pub value: String,
}

/// Request payload that toggles one option item's status.
#[derive(Clone, Debug)]
pub struct MigrosPayloadStatusOptions {
    pub store_id: i64,
    pub option_item_id: i64,
}

/// Request payload that toggles one product's status.
#[derive(Clone, Debug)]
pub struct MigrosPayloadStatusProduct {
    pub store_id: i64,
    pub product_id: i64,
    pub status: String,
}

/// Decoded response of the menu-details endpoint.
#[derive(Clone, Debug)]
pub struct MigrosResponseMenuDetails {
    pub data: MigrosResponseMenuDetailsData,
}

#[derive(Clone, Debug)]
pub struct MigrosResponseMenuDetailsData {
    pub menu_header_infos: Vec<MigrosResponseMenuHeaderInfos>,
}

#[derive(Clone, Debug)]
pub struct MigrosResponseMenuHeaderInfos {
    pub id: i64,
    pub food_menu_item_details_dtos: Vec<MigrosResponseFoodMenuItemDetailsDTOs>,
}

/// One product line of a menu header: its platform id, status text and
/// row id.
#[derive(Clone, Debug)]
pub struct MigrosResponseFoodMenuItemDetailsDTOs {
    pub product_id: i64,
    pub status: String,
    pub id: i64,
}

/// Decoded response of the option-details endpoint.
#[derive(Clone, Debug)]
pub struct MigrosResponseOptionsDetails {
    pub data: Vec<MigrosResponseOptionsDetailsData>,
}

#[derive(Clone, Debug)]
pub struct MigrosResponseOptionsDetailsData {
    pub options_info: MigrosResponseOptionsInfo,
}

#[derive(Clone, Debug)]
pub struct MigrosResponseOptionsInfo {
    pub object_option_header_infos_v2: Vec<MigrosResponseObjectOptionHeaderInfosV2>,
}

/// One modifier group: its header, owning product and option items.
#[derive(Clone, Debug)]
pub struct MigrosResponseObjectOptionHeaderInfosV2 {
    pub option_header_dto: MigrosResponseOptionHeaderDTO,
    pub owner_id: i64,
    pub object_option_item_infos_v2: Vec<MigrosResponseObjectOptionItemInfosV2>,
}

#[derive(Clone, Debug)]
pub struct MigrosResponseOptionHeaderDTO {
    pub id: i64,
}

#[derive(Clone, Debug)]
pub struct MigrosResponseObjectOptionItemInfosV2 {
    pub option_item_dto: MigrosResponseOptionItemDTO,
    pub id: i64,
}

/// One option item: its platform id and status text.
#[derive(Clone, Debug)]
pub struct MigrosResponseOptionItemDTO {
    pub id: i64,
    pub status: String,
}

/// Decoded acknowledgment of the status-activation endpoint.
#[derive(Clone, Debug)]
pub struct MigrosActivateResponse {
    pub success: bool,
    pub error_message: Option<MigrosErrorMessage>,
    pub validaton_error_messages: Option<Vec<String>>,
}

/// The platform's own description of a rejected status change.
#[derive(Clone, Debug)]
pub struct MigrosErrorMessage {
    pub error_code: String,
    pub error_title: String,
    pub error_detail: String,
    pub is_system_error: bool,
}

/// The JSON text of a menu-details payload.
pub open spec fn menu_details_json(store_id: int, store_group_id: int) -> Seq<char> {
    "{\"storeId\":"@ + dec_rep_signed(store_id) + ",\"storeGroupId\":"@ + dec_rep_signed(
        store_group_id,
    ) + "}"@
}

/// The JSON text of an option-details payload.
pub open spec fn options_json(menu_id: int) -> Seq<char> {
    "{\"menuId\":"@ + dec_rep_signed(menu_id) + "}"@
}

/// The JSON text of an encrypted-parameter payload.
pub open spec fn encrypted_payload_json(value: Seq<char>) -> Seq<char> {
    "{\"value\":"@ + json_string(value) + "}"@
}

/// The JSON text of an option-item status payload.
pub open spec fn status_options_json(store_id: int, option_item_id: int) -> Seq<char> {
    "{\"storeId\":"@ + dec_rep_signed(store_id) + ",\"optionItemId\":"@ + dec_rep_signed(
        option_item_id,
    ) + "}"@
}

/// The JSON text of a product status payload.
pub open spec fn status_product_json(store_id: int, product_id: int, status: Seq<char>) -> Seq<
    char,
> {
    "{\"storeId\":"@ + dec_rep_signed(store_id) + ",\"productId\":"@ + dec_rep_signed(product_id)
        + ",\"status\":"@ + json_string(status) + "}"@
}

impl MigrosPayloadMenuDetails {
    /// Serializes this payload to its canonical JSON text.
    pub fn to_json(&self) -> (r: String)
        ensures
            r@ == menu_details_json(self.store_id as int, self.store_group_id as int),
    {
        let mut out = String::from_str("{\"storeId\":");
        let sid = i64_to_string(self.store_id);
        out.append(sid.as_str());
        out.append(",\"storeGroupId\":");
        let gid = i64_to_string(self.store_group_id);
        out.append(gid.as_str());
        out.append("}");
        proof {
            assert(out@ =~= menu_details_json(self.store_id as int, self.store_group_id as int));
        }
        out
    }
}

impl MigrosPayloadOptions {
    /// Serializes this payload to its canonical JSON text.
    pub fn to_json(&self) -> (r: String)
        ensures
            r@ == options_json(self.menu_id as int),
    {
        let mut out = String::from_str("{\"menuId\":");
        let mid = i64_to_string(self.menu_id);
        out.append(mid.as_str());
        out.append("}");
        proof {
            assert(out@ =~= options_json(self.menu_id as int));
        }
        out
    }
}

impl MigrosEncryptedPayload {
    /// Serializes this payload to its canonical JSON text, escaping the
    /// carried value.
    pub fn to_json(&self) -> (r: String)
        ensures
            r@ == encrypted_payload_json(self.value@),
    {
        let mut out = String::from_str("{\"value\":");
        let quoted = json_quote(self.value.as_str());
        out.append(quoted.as_str());
        out.append("}");
        proof {
            assert(out@ =~= encrypted_payload_json(self.value@));
        }
        out
    }
}

impl MigrosPayloadStatusOptions {
    /// Serializes this payload to its canonical JSON text.
    pub fn to_json(&self) -> (r: String)
        ensures
            r@ == status_options_json(self.store_id as int, self.option_item_id as int),
    {
        let mut out = String::from_str("{\"storeId\":");
        let sid = i64_to_string(self.store_id);
        out.append(sid.as_str());
        out.append(",\"optionItemId\":");
        let oid = i64_to_string(self.option_item_id);
        out.append(oid.as_str());
        out.append("}");
        proof {
            assert(out@ =~= status_options_json(
                self.store_id as int,
                self.option_item_id as int,
            ));
        }
        out
    }
}

impl MigrosPayloadStatusProduct {
    /// Serializes this payload to its canonical JSON text, escaping the
    /// status text.
    pub fn to_json(&self) -> (r: String)
        ensures
            r@ == status_product_json(self.store_id as int, self.product_id as int, self.status@),
    {
        let mut out = String::from_str("{\"storeId\":");
        let sid = i64_to_string(self.store_id);
        out.append(sid.as_str());
        out.append(",\"productId\":");
        let pid = i64_to_string(self.product_id);
        out.append(pid.as_str());
        out.append(",\"status\":");
        let quoted = json_quote(self.status.as_str());
        out.append(quoted.as_str());
        out.append("}");
        proof {
            assert(out@ =~= status_product_json(
                self.store_id as int,
                self.product_id as int,
                self.status@,
            ));
        }
        out
    }
}

/// Builds the encrypted request parameter for one serialized payload: the
/// payload text encrypted under the key, carried in the single field the
/// platform reads. Succeeds exactly when the key is 32 bytes long.
pub fn build_encrypted_payload(plain_json: &str, secret_key: &str) -> (r: Result<
    MigrosEncryptedPayload,
    CipherError,
>)
    ensures
        r is Ok <==> encode_utf8(secret_key@).len() == 32,
        r matches Ok(p) ==> p.value@ == spec_encrypted_value(
            encode_utf8(secret_key@),
            encode_utf8(plain_json@),
        ),
{
    match encrypt_migros(plain_json, secret_key) {
        Ok(value) => Ok(MigrosEncryptedPayload { value }),
        Err(e) => Err(e),
    }
}

/// The status text the platform expects for a desired activation state.
pub open spec fn spec_status_text(active: bool) -> Seq<char> {
    if active {
        "active"@
    } else {
        "passive"@
    }
}

/// The status text the platform expects for a desired activation state.
pub fn status_text(active: bool) -> (r: String)
    ensures
        r@ == spec_status_text(active),
{
    if active {
        String::from_str("active")
    } else {
        String::from_str("passive")
    }
}

/// The typed request body one status change is applied with.
#[derive(Clone, Debug)]
pub enum StatusApplyPayload {
    Product(MigrosPayloadStatusProduct),
    OptionItem(MigrosPayloadStatusOptions),
}

/// Builds the request body that applies one status change: a product
/// change carries the store, the product and the desired status text; an
/// option-item change carries the store and the item.
pub fn build_status_payload(change: &StatusChange) -> (r: StatusApplyPayload)
    ensures
        change.target == ChangeTarget::Product ==> (r matches StatusApplyPayload::Product(p)
            && p.store_id == change.store_id && p.product_id == change.target_id && p.status@
            == spec_status_text(change.status)),
        change.target == ChangeTarget::OptionItem ==> (r matches StatusApplyPayload::OptionItem(
            p,
        ) && p.store_id == change.store_id && p.option_item_id == change.target_id),
{
    match change.target {
        ChangeTarget::Product => StatusApplyPayload::Product(
            MigrosPayloadStatusProduct {
                store_id: change.store_id,
                product_id: change.target_id,
                status: status_text(change.status),
            },
        ),
        ChangeTarget::OptionItem => StatusApplyPayload::OptionItem(
            MigrosPayloadStatusOptions {
                store_id: change.store_id,
                option_item_id: change.target_id,
            },
        ),
    }
}

/// How a response leaves the retry policy: done, worth another attempt,
/// or failed for good.
#[derive(Clone, Copy, Debug, PartialEq, Eq, Structural)]
pub enum ResponseClass {
    /// A 2xx status: the request went through.
    Success,
    /// A transport-level or server-side condition that may pass: 5xx or
    /// rate limiting.
    Retryable,
    /// Any other status: surfaced immediately, no retry attempted.
    NonRetryable,
}

/// Classification of one HTTP status code: 2xx succeeds, 5xx and 429 are
/// retryable, everything else fails immediately.
pub open spec fn spec_classify_http_status(status: int) -> ResponseClass {
    if 200 <= status < 300 {
        ResponseClass::Success
    } else if 500 <= status < 600 || status == 429 {
        ResponseClass::Retryable
    } else {
        ResponseClass::NonRetryable
    }
}

/// Classifies an HTTP status code for the retry policy: a 2xx response
/// succeeded, a 5xx or rate-limit response is retryable, and any other
/// response is a non-retryable request-scoped error.
pub fn classify_http_status(status: u16) -> (r: ResponseClass)
    ensures
        r == spec_classify_http_status(status as int),
{
    if 200 <= status && status < 300 {
        ResponseClass::Success
    } else if (500 <= status && status < 600) || status == 429 {
        ResponseClass::Retryable
    } else {
        ResponseClass::NonRetryable
    }
}

/// Why an acknowledged status change did not take effect.
#[derive(Clone, Debug)]
pub enum ApplyError {
    /// The platform rejected the change and said why.
    Rejected(MigrosErrorMessage),
    /// The platform rejected the change without an error message.
    RejectedWithoutMessage,
}

impl MigrosActivateResponse {
    /// Reads a well-formed acknowledgment: success exactly when the
    /// platform reported success; otherwise the platform's own error
    /// message, when it sent one, is surfaced unchanged.
    pub fn into_result(self) -> (r: Result<(), ApplyError>)
        ensures
            r is Ok <==> self.success,
            self.success ==> r == Ok::<(), ApplyError>(()),
            !self.success && self.error_message is Some ==> r == Err::<(), ApplyError>(
                ApplyError::Rejected(self.error_message.unwrap()),
            ),
            !self.success && self.error_message is None ==> r == Err::<(), ApplyError>(
                ApplyError::RejectedWithoutMessage,
            ),
    {
        if self.success {
            Ok(())
        } else {
            match self.error_message {
                Some(m) => Err(ApplyError::Rejected(m)),
                None => Err(ApplyError::RejectedWithoutMessage),
            }
        }
    }
}

} // verus!
