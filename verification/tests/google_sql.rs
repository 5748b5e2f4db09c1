use kevgir::google::{
    append_sheet_values_url, clear_sheet_range_url, drive_query, drive_search_url, first_file_id,
    google_api_scope, make_jwt_claims, sheet_values_url, GoogleDriveFileInfo,
    GoogleDriveFileListResponse,
};
use kevgir::sql::{pg_insert_statement, pg_truncate_statement};

#[test]
fn jwt_claims_are_valid_for_one_hour() {
    let claims = make_jwt_claims(
        "svc@example.iam.gserviceaccount.com",
        google_api_scope(),
        "https://oauth2.googleapis.com/token",
        1_700_000_000,
    );
    assert_eq!(claims.iss, "svc@example.iam.gserviceaccount.com");
    assert_eq!(claims.aud, "https://oauth2.googleapis.com/token");
    assert_eq!(claims.iat, 1_700_000_000);
    assert_eq!(claims.exp, 1_700_003_600);
    assert!(claims.scope.contains("https://www.googleapis.com/auth/spreadsheets"));
}

#[test]
fn sheet_urls_have_the_fixed_shape() {
    assert_eq!(
        sheet_values_url("SHEET1", "TAB!A2:I", "tok"),
        "https://sheets.googleapis.com/v4/spreadsheets/SHEET1/values/TAB!A2:I:append?access_token=tok"
    );
    assert_eq!(
        append_sheet_values_url("S", "R", "t"),
        "https://sheets.googleapis.com/v4/spreadsheets/S/values/R:append?valueInputOption=USER_ENTERED&access_token=t"
    );
    assert_eq!(
        clear_sheet_range_url("S", "R", "t"),
        "https://sheets.googleapis.com/v4/spreadsheets/S/values/R:clear?access_token=t"
    );
}

#[test]
fn drive_query_names_file_and_folder() {
    assert_eq!(
        drive_query("Sheet Name", "FOLDER"),
        "name='Sheet Name' and mimeType='application/vnd.google-apps.spreadsheet' and 'FOLDER' in parents and trashed=false"
    );
}

#[test]
fn drive_search_url_percent_encodes_the_query() {
    let query = drive_query("My Sheet", "F1");
    let url = drive_search_url(&query);
    let expected = format!(
        "https://www.googleapis.com/drive/v3/files?q={}&fields=files(id,name)",
        urlencoding::encode(&query)
    );
    assert_eq!(url, expected);
    // The raw query holds spaces and quotes; the URL must not.
    assert!(url.contains("%20"));
    assert!(url.contains("%27"));
    assert!(!url.contains(' '));
}

#[test]
fn first_file_id_takes_the_first_hit() {
    let resp = GoogleDriveFileListResponse {
        files: vec![
            GoogleDriveFileInfo {
                id: "id-1".to_string(),
                name: "a".to_string(),
            },
            GoogleDriveFileInfo {
                id: "id-2".to_string(),
                name: "b".to_string(),
            },
        ],
    };
    assert_eq!(first_file_id(&resp), Some("id-1".to_string()));
    let empty = GoogleDriveFileListResponse { files: vec![] };
    assert_eq!(first_file_id(&empty), None);
}

#[test]
fn insert_statement_numbers_placeholders_by_row() {
    let columns = vec!["a".to_string(), "b".to_string()];
    let stmt = pg_insert_statement("public", "items", &columns, &vec![2, 2]);
    assert_eq!(
        stmt,
        "INSERT INTO \"public\".\"items\" (\"a\", \"b\") VALUES ($1, $2), ($3, $4)"
    );
}

#[test]
fn insert_statement_handles_one_row_and_one_column() {
    let columns = vec!["only".to_string()];
    let stmt = pg_insert_statement("s", "t", &columns, &vec![1]);
    assert_eq!(stmt, "INSERT INTO \"s\".\"t\" (\"only\") VALUES ($1)");
}

#[test]
fn insert_statement_with_no_rows_has_empty_values() {
    let columns = vec!["a".to_string()];
    let stmt = pg_insert_statement("s", "t", &columns, &vec![]);
    assert_eq!(stmt, "INSERT INTO \"s\".\"t\" (\"a\") VALUES ");
}

#[test]
fn truncate_statement_quotes_schema_and_table() {
    assert_eq!(
        pg_truncate_statement("public", "items"),
        "TRUNCATE TABLE \"public\".\"items\" CASCADE"
    );
}
