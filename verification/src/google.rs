//! Google API data and request text: the credential and response shapes,
//! the JWT claims a token request carries, and the exact URLs the sheet
//! and drive calls use. The HTTP transport and the RSA signing live
//! outside the library.

use vstd::prelude::*;

verus! {

/// A service account's credential file contents.
#[derive(Clone, Debug)]
pub struct ServiceAccountCredentials {
    pub account_type: String,
    pub project_id: String,
    pub private_key_id: String,
    pub private_key: String,
    pub client_email: String,
    pub client_id: String,
    pub auth_uri: String,
    pub token_uri: String,
    pub auth_provider_x509_cert_url: String,
    pub client_x509_cert_url: String,
    pub universe_domain: String,
}

/// The claims of a service-account token request.
#[derive(Clone, Copy, Debug)]
pub struct JWTClaims<'a> {
    pub iss: &'a str,
    pub scope: &'a str,
    pub aud: &'a str,
    pub exp: usize,
    pub iat: usize,
}

/// A token endpoint's answer.
#[derive(Clone, Debug)]
pub struct GoogleTokenResponse {
    pub access_token: String,
    pub expires_in: usize,
    pub token_type: String,
}

/// A sheet range read: the raw two-dimensional cell table.
#[derive(Clone, Debug)]
pub struct GoogleSheetResponse {
    pub range: Option<String>,
    pub major_dimension: Option<String>,
    pub values: Vec<Vec<String>>,
}

/// One file a drive search reports.
#[derive(Clone, Debug)]
pub struct GoogleDriveFileInfo {
    pub id: String,
    pub name: String,
}

/// A drive search's answer.
#[derive(Clone, Debug)]
pub struct GoogleDriveFileListResponse {
    pub files: Vec<GoogleDriveFileInfo>,
}

/// The space-joined OAuth scopes every token request asks for.
pub fn google_api_scope() -> (r: &'static str)
    ensures
        r@
            == "https://www.googleapis.com/auth/cloud-platform https://www.googleapis.com/auth/drive https://www.googleapis.com/auth/spreadsheets https://www.googleapis.com/auth/gmail.readonly"@,
{
    "https://www.googleapis.com/auth/cloud-platform https://www.googleapis.com/auth/drive https://www.googleapis.com/auth/spreadsheets https://www.googleapis.com/auth/gmail.readonly"
}

/// The claims of a token request issued at `now`: issuer, scope and
/// audience as given, valid for exactly one hour.
pub fn make_jwt_claims<'a>(iss: &'a str, scope: &'a str, aud: &'a str, now: usize) -> (r:
    JWTClaims<'a>)
    requires
        now + 3600 <= usize::MAX,
    ensures
        r.iss@ == iss@,
        r.scope@ == scope@,
        r.aud@ == aud@,
        r.iat == now,
        r.exp == now + 3600,
{
    JWTClaims { iss, scope, aud, exp: now + 3600, iat: now }
}

/// The URL a sheet range is read from.
pub fn sheet_values_url(spreadsheet_id: &str, range: &str, access_token: &str) -> (r: String)
    ensures
        r@ == "https://sheets.googleapis.com/v4/spreadsheets/"@ + spreadsheet_id@ + "/values/"@
            + range@ + ":append?access_token="@ + access_token@,
{
    let mut out = String::from_str("https://sheets.googleapis.com/v4/spreadsheets/");
    out.append(spreadsheet_id);
    out.append("/values/");
    out.append(range);
    out.append(":append?access_token=");
    out.append(access_token);
    proof {
        assert(out@ =~= "https://sheets.googleapis.com/v4/spreadsheets/"@ + spreadsheet_id@
            + "/values/"@ + range@ + ":append?access_token="@ + access_token@);
    }
    out
}

/// The URL rows are appended to.
pub fn append_sheet_values_url(spreadsheet_id: &str, range: &str, access_token: &str) -> (r:
    String)
    ensures
        r@ == "https://sheets.googleapis.com/v4/spreadsheets/"@ + spreadsheet_id@ + "/values/"@
            + range@ + ":append?valueInputOption=USER_ENTERED&access_token="@ + access_token@,
{
    let mut out = String::from_str("https://sheets.googleapis.com/v4/spreadsheets/");
    out.append(spreadsheet_id);
    out.append("/values/");
    out.append(range);
    out.append(":append?valueInputOption=USER_ENTERED&access_token=");
    out.append(access_token);
    proof {
        assert(out@ =~= "https://sheets.googleapis.com/v4/spreadsheets/"@ + spreadsheet_id@
            + "/values/"@ + range@ + ":append?valueInputOption=USER_ENTERED&access_token="@
            + access_token@);
    }
    out
}

/// The URL a sheet range is cleared through.
pub fn clear_sheet_range_url(spreadsheet_id: &str, range: &str, access_token: &str) -> (r: String)
    ensures
        r@ == "https://sheets.googleapis.com/v4/spreadsheets/"@ + spreadsheet_id@ + "/values/"@
            + range@ + ":clear?access_token="@ + access_token@,
{
    let mut out = String::from_str("https://sheets.googleapis.com/v4/spreadsheets/");
    out.append(spreadsheet_id);
    out.append("/values/");
    out.append(range);
    out.append(":clear?access_token=");
    out.append(access_token);
    proof {
        assert(out@ =~= "https://sheets.googleapis.com/v4/spreadsheets/"@ + spreadsheet_id@
            + "/values/"@ + range@ + ":clear?access_token="@ + access_token@);
    }
    out
}

/// The drive search query for one spreadsheet by name under one folder.
pub fn drive_query(spreadsheet_name: &str, folder_id: &str) -> (r: String)
    ensures
        r@ == "name='"@ + spreadsheet_name@
            + "' and mimeType='application/vnd.google-apps.spreadsheet' and '"@ + folder_id@
            + "' in parents and trashed=false"@,
{
    let mut out = String::from_str("name='");
    out.append(spreadsheet_name);
    out.append("' and mimeType='application/vnd.google-apps.spreadsheet' and '");
    out.append(folder_id);
    out.append("' in parents and trashed=false");
    proof {
        assert(out@ =~= "name='"@ + spreadsheet_name@
            + "' and mimeType='application/vnd.google-apps.spreadsheet' and '"@ + folder_id@
            + "' in parents and trashed=false"@);
    }
    out
}

/// The percent-encoded form of a string. The encoding is a function of
/// the characters alone, which is all the contracts rely on.
pub uninterp spec fn url_encoded_of(s: Seq<char>) -> Seq<char>;

/// Relies on `urlencoding::encode`: percent-encodes the string's UTF-8
/// bytes, a function of the input alone; an empty input stays empty.
#[verifier::external_body]
fn url_encode(s: &str) -> (r: String)
    ensures
        r@ == url_encoded_of(s@),
        s@.len() == 0 ==> r@.len() == 0,
{
    urlencoding::encode(s).into_owned()
}

/// The URL a drive search runs through: the query percent-encoded into
/// the `q` parameter.
pub fn drive_search_url(query: &str) -> (r: String)
    ensures
        r@ == "https://www.googleapis.com/drive/v3/files?q="@ + url_encoded_of(query@)
            + "&fields=files(id,name)"@,
{
    let mut out = String::from_str("https://www.googleapis.com/drive/v3/files?q=");
    let encoded = url_encode(query);
    out.append(encoded.as_str());
    out.append("&fields=files(id,name)");
    proof {
        assert(out@ =~= "https://www.googleapis.com/drive/v3/files?q="@ + url_encoded_of(query@)
            + "&fields=files(id,name)"@);
    }
    out
}

/// The id of the first file a drive search reported, if it reported any.
pub fn first_file_id(resp: &GoogleDriveFileListResponse) -> (r: Option<String>)
    ensures
        r is Some <==> resp.files@.len() > 0,
        r matches Some(id) ==> id@ == resp.files@[0].id@,
{
    if resp.files.len() > 0 {
        Some(resp.files[0].id.clone())
    } else {
        None
    }
}

} // verus!
