use kevgir::flagger::{
    compute_status_changes, ChangeTarget, MigrosActiveMenu, ModifierGroupIdsEnum,
    ObservedMenuState, ObservedModifierGroup, ObservedOptionItem, ObservedProduct,
};
use kevgir::platform::{
    MigrosResponseFoodMenuItemDetailsDTOs, MigrosResponseMenuDetails,
    MigrosResponseMenuDetailsData, MigrosResponseMenuHeaderInfos,
    MigrosResponseObjectOptionHeaderInfosV2, MigrosResponseObjectOptionItemInfosV2,
    MigrosResponseOptionHeaderDTO, MigrosResponseOptionItemDTO, MigrosResponseOptionsDetails,
    MigrosResponseOptionsDetailsData, MigrosResponseOptionsInfo,
};

fn flag(product_id: i64, desired: bool, groups: ModifierGroupIdsEnum) -> MigrosActiveMenu {
    MigrosActiveMenu {
        kind: "product".to_string(),
        restaurant_id: 1,
        category_id: 2,
        header_info_id: 3,
        product_id,
        modifier_group_ids: groups,
        status: desired,
        urun_id: None,
        flag: None,
        x_api_key: "test-api-key".to_string(),
    }
}

fn no_mods() -> ModifierGroupIdsEnum {
    ModifierGroupIdsEnum::Sentinel("-".to_string())
}

fn observed(products: Vec<(i64, &str)>, groups: Vec<(i64, Vec<(i64, &str)>)>) -> ObservedMenuState {
    ObservedMenuState {
        products: products
            .into_iter()
            .map(|(id, st)| ObservedProduct {
                product_id: id,
                status: st.to_string(),
            })
            .collect(),
        groups: groups
            .into_iter()
            .map(|(gid, items)| ObservedModifierGroup {
                group_id: gid,
                owner_id: 0,
                items: items
                    .into_iter()
                    .map(|(id, st)| ObservedOptionItem {
                        option_item_id: id,
                        status: st.to_string(),
                    })
                    .collect(),
            })
            .collect(),
    }
}

#[test]
fn matching_state_emits_no_changes() {
    let flags = vec![flag(555, true, no_mods()), flag(556, false, no_mods())];
    let obs = observed(vec![(555, "active"), (556, "passive")], vec![]);
    let changes = compute_status_changes(&flags, &obs, 10);
    assert!(changes.is_empty());
}

#[test]
fn one_flipped_product_emits_exactly_one_change() {
    let flags = vec![flag(555, false, no_mods()), flag(556, false, no_mods())];
    let obs = observed(vec![(555, "active"), (556, "passive")], vec![]);
    let changes = compute_status_changes(&flags, &obs, 10);
    assert_eq!(changes.len(), 1);
    assert_eq!(changes[0].target, ChangeTarget::Product);
    assert_eq!(changes[0].target_id, 555);
    assert_eq!(changes[0].store_id, 10);
    assert_eq!(changes[0].status, false);
}

#[test]
fn unreported_product_emits_no_change() {
    let flags = vec![flag(999, true, no_mods())];
    let obs = observed(vec![(555, "active")], vec![]);
    let changes = compute_status_changes(&flags, &obs, 10);
    assert!(changes.is_empty());
}

#[test]
fn referenced_group_items_are_walked_in_order() {
    let flags = vec![flag(
        555,
        true,
        ModifierGroupIdsEnum::Ids(vec![20, 10]),
    )];
    let obs = observed(
        vec![(555, "active")],
        vec![
            (10, vec![(101, "passive"), (102, "active")]),
            (20, vec![(201, "passive")]),
        ],
    );
    let changes = compute_status_changes(&flags, &obs, 10);
    // Group 20 is referenced first, then group 10; only passive items flip.
    assert_eq!(changes.len(), 2);
    assert_eq!(changes[0].target, ChangeTarget::OptionItem);
    assert_eq!(changes[0].target_id, 201);
    assert_eq!(changes[1].target_id, 101);
    assert!(changes.iter().all(|c| c.status));
}

#[test]
fn sentinel_reference_skips_option_items() {
    let flags = vec![flag(555, true, no_mods())];
    let obs = observed(
        vec![(555, "active")],
        vec![(10, vec![(101, "passive")])],
    );
    let changes = compute_status_changes(&flags, &obs, 10);
    assert!(changes.is_empty());
}

#[test]
fn unknown_status_text_counts_as_inactive() {
    let flags = vec![flag(555, true, no_mods())];
    let obs = observed(vec![(555, "suspended")], vec![]);
    let changes = compute_status_changes(&flags, &obs, 10);
    assert_eq!(changes.len(), 1);
    assert_eq!(changes[0].status, true);
}

#[test]
fn first_reported_status_wins_for_duplicate_products() {
    let flags = vec![flag(555, true, no_mods())];
    let obs = observed(vec![(555, "active"), (555, "passive")], vec![]);
    let changes = compute_status_changes(&flags, &obs, 10);
    assert!(changes.is_empty());
}

#[test]
fn responses_flatten_into_observed_state() {
    let menu = MigrosResponseMenuDetails {
        data: MigrosResponseMenuDetailsData {
            menu_header_infos: vec![
                MigrosResponseMenuHeaderInfos {
                    id: 1,
                    food_menu_item_details_dtos: vec![
                        MigrosResponseFoodMenuItemDetailsDTOs {
                            product_id: 555,
                            status: "active".to_string(),
                            id: 71,
                        },
                        MigrosResponseFoodMenuItemDetailsDTOs {
                            product_id: 556,
                            status: "passive".to_string(),
                            id: 72,
                        },
                    ],
                },
                MigrosResponseMenuHeaderInfos {
                    id: 2,
                    food_menu_item_details_dtos: vec![MigrosResponseFoodMenuItemDetailsDTOs {
                        product_id: 557,
                        status: "active".to_string(),
                        id: 73,
                    }],
                },
            ],
        },
    };
    let options = MigrosResponseOptionsDetails {
        data: vec![MigrosResponseOptionsDetailsData {
            options_info: MigrosResponseOptionsInfo {
                object_option_header_infos_v2: vec![MigrosResponseObjectOptionHeaderInfosV2 {
                    option_header_dto: MigrosResponseOptionHeaderDTO { id: 10 },
                    owner_id: 555,
                    object_option_item_infos_v2: vec![MigrosResponseObjectOptionItemInfosV2 {
                        option_item_dto: MigrosResponseOptionItemDTO {
                            id: 101,
                            status: "passive".to_string(),
                        },
                        id: 900,
                    }],
                }],
            },
        }],
    };
    let obs = ObservedMenuState::from_responses(&menu, &options);
    assert_eq!(obs.products.len(), 3);
    assert_eq!(obs.products[0].product_id, 555);
    assert_eq!(obs.products[0].status, "active");
    assert_eq!(obs.products[2].product_id, 557);
    assert_eq!(obs.groups.len(), 1);
    assert_eq!(obs.groups[0].group_id, 10);
    assert_eq!(obs.groups[0].owner_id, 555);
    assert_eq!(obs.groups[0].items.len(), 1);
    assert_eq!(obs.groups[0].items[0].option_item_id, 101);
    assert_eq!(obs.groups[0].items[0].status, "passive");
}
