//! Reconciler: the diff between desired menu state and the state the
//! platform reports.
//!
//! For each desired flag the observed product status is compared with the
//! desired one; a disagreement emits a product change. When the flag
//! names modifier groups, the option items of every observed group with a
//! named id are walked, and each disagreeing item emits an option-item
//! change. Emitted changes follow desired-flag order, then modifier-item
//! order. A key with no flags, or with every status already matching,
//! emits no changes — that is not an error.

use vstd::prelude::*;

use crate::platform::{
    MigrosResponseFoodMenuItemDetailsDTOs, MigrosResponseMenuDetails, MigrosResponseMenuHeaderInfos,
    MigrosResponseObjectOptionHeaderInfosV2, MigrosResponseObjectOptionItemInfosV2,
    MigrosResponseOptionsDetails, MigrosResponseOptionsDetailsData,
};

verus! {

/// Whether a product's options take part in reconciliation: an explicit
/// list of modifier-group ids, or the platform's "no modifiers" sentinel
/// text (usually `"-"`).
#[derive(Clone, Debug)]
pub enum ModifierGroupIdsEnum {
    Ids(Vec<i64>),
    Sentinel(String),
}

/// The same tagged union as [`ModifierGroupIdsEnum`] with the ids kept as
/// raw text.
#[derive(Clone, Debug)]
pub enum ModifierGroupIdsEnumString {
    Ids(Vec<String>),
    Sentinel(String),
}

/// Model of a modifier-group reference.
pub enum ModifierRefModel {
    Ids(Seq<i64>),
    Sentinel(Seq<char>),
}

impl DeepView for ModifierGroupIdsEnum {
    type V = ModifierRefModel;

    open spec fn deep_view(&self) -> ModifierRefModel {
        match self {
            ModifierGroupIdsEnum::Ids(v) => ModifierRefModel::Ids(v.deep_view()),
            ModifierGroupIdsEnum::Sentinel(s) => ModifierRefModel::Sentinel(s@),
        }
    }
}

/// One desired-state record: what status a product (and its modifier
/// items, when referenced) should have. Sourced externally; the pipeline
/// only reads it.
#[derive(Clone, Debug)]
pub struct MigrosActiveMenu {
    pub kind: String,
    pub restaurant_id: i64,
    pub category_id: i64,
    pub header_info_id: i64,
    pub product_id: i64,
    pub modifier_group_ids: ModifierGroupIdsEnum,
    pub status: bool,
    pub urun_id: Option<i64>,
    pub flag: Option<bool>,
    pub x_api_key: String,
}

/// Model of a desired-state record.
pub struct ActiveMenuFlagModel {
    pub kind: Seq<char>,
    pub restaurant_id: i64,
    pub category_id: i64,
    pub header_info_id: i64,
    pub product_id: i64,
    pub modifier_group_ids: ModifierRefModel,
    pub status: bool,
    pub urun_id: Option<i64>,
    pub flag: Option<bool>,
    pub x_api_key: Seq<char>,
}

impl View for MigrosActiveMenu {
    type V = ActiveMenuFlagModel;

    open spec fn view(&self) -> ActiveMenuFlagModel {
        ActiveMenuFlagModel {
            kind: self.kind@,
            restaurant_id: self.restaurant_id,
            category_id: self.category_id,
            header_info_id: self.header_info_id,
            product_id: self.product_id,
            modifier_group_ids: self.modifier_group_ids.deep_view(),
            status: self.status,
            urun_id: self.urun_id,
            flag: self.flag,
            x_api_key: self.x_api_key@,
        }
    }
}

impl DeepView for MigrosActiveMenu {
    type V = ActiveMenuFlagModel;

    open spec fn deep_view(&self) -> ActiveMenuFlagModel {
        self.view()
    }
}

/// One observed product: its platform id and current status text.
#[derive(Clone, Debug)]
pub struct ObservedProduct {
    pub product_id: i64,
    pub status: String,
}

/// Model of an observed product.
pub struct ObservedProductModel {
    pub product_id: i64,
    pub status: Seq<char>,
}

impl DeepView for ObservedProduct {
    type V = ObservedProductModel;

    open spec fn deep_view(&self) -> ObservedProductModel {
        ObservedProductModel { product_id: self.product_id, status: self.status@ }
    }
}

/// One observed option item: its platform id and current status text.
#[derive(Clone, Debug)]
pub struct ObservedOptionItem {
    pub option_item_id: i64,
    pub status: String,
}

/// Model of an observed option item.
pub struct ObservedOptionItemModel {
    pub option_item_id: i64,
    pub status: Seq<char>,
}

impl DeepView for ObservedOptionItem {
    type V = ObservedOptionItemModel;

    open spec fn deep_view(&self) -> ObservedOptionItemModel {
        ObservedOptionItemModel { option_item_id: self.option_item_id, status: self.status@ }
    }
}

/// One observed modifier group: its header id, the product that owns it
/// and its option items.
#[derive(Clone, Debug)]
pub struct ObservedModifierGroup {
    pub group_id: i64,
    pub owner_id: i64,
    pub items: Vec<ObservedOptionItem>,
}

/// Model of an observed modifier group.
pub struct ObservedModifierGroupModel {
    pub group_id: i64,
    pub owner_id: i64,
    pub items: Seq<ObservedOptionItemModel>,
}

impl DeepView for ObservedModifierGroup {
    type V = ObservedModifierGroupModel;

    open spec fn deep_view(&self) -> ObservedModifierGroupModel {
        ObservedModifierGroupModel {
            group_id: self.group_id,
            owner_id: self.owner_id,
            items: self.items.deep_view(),
        }
    }
}

/// What one fetch of the platform reports for one key: the products'
/// status and the modifier groups' items. Built fresh per key per run and
/// discarded after the diff.
#[derive(Clone, Debug)]
pub struct ObservedMenuState {
    pub products: Vec<ObservedProduct>,
    pub groups: Vec<ObservedModifierGroup>,
}

/// Model of the observed menu state.
pub struct ObservedMenuStateModel {
    pub products: Seq<ObservedProductModel>,
    pub groups: Seq<ObservedModifierGroupModel>,
}

impl View for ObservedMenuState {
    type V = ObservedMenuStateModel;

    open spec fn view(&self) -> ObservedMenuStateModel {
        ObservedMenuStateModel {
            products: self.products.deep_view(),
            groups: self.groups.deep_view(),
        }
    }
}

/// What a status change is aimed at.
#[derive(Clone, Copy, Debug, PartialEq, Eq, Structural)]
pub enum ChangeTarget {
    Product,
    OptionItem,
}

/// One change needed to make observed state match desired state; consumed
/// immediately by the apply stage.
#[derive(Clone, Copy, Debug, PartialEq, Eq, Structural)]
pub struct StatusChange {
    pub target: ChangeTarget,
    pub target_id: i64,
    pub store_id: i64,
    pub status: bool,
}

/// True of the status text the platform uses for an active item.
pub open spec fn status_active(s: Seq<char>) -> bool {
    s == "active"@
}

/// The status text of the first observed product with the given id,
/// nothing when the id is not reported.
pub open spec fn spec_product_status(products: Seq<ObservedProductModel>, product_id: i64) -> Option<
    Seq<char>,
>
    decreases products.len(),
{
    if products.len() == 0 {
        Option::None
    } else if products[0].product_id == product_id {
        Option::Some(products[0].status)
    } else {
        spec_product_status(products.skip(1), product_id)
    }
}

/// The option-item changes for one group's items: one change per item
/// whose observed status disagrees with the desired one, in item order.
pub open spec fn spec_item_changes(
    items: Seq<ObservedOptionItemModel>,
    desired: bool,
    store_id: i64,
) -> Seq<StatusChange>
    decreases items.len(),
{
    if items.len() == 0 {
        Seq::empty()
    } else {
        spec_item_changes(items.drop_last(), desired, store_id) + (if status_active(
            items.last().status,
        ) != desired {
            seq![
                StatusChange {
                    target: ChangeTarget::OptionItem,
                    target_id: items.last().option_item_id,
                    store_id,
                    status: desired,
                },
            ]
        } else {
            Seq::empty()
        })
    }
}

/// The option-item changes of every observed group carrying one group id,
/// in group order.
pub open spec fn spec_group_changes(
    groups: Seq<ObservedModifierGroupModel>,
    gid: i64,
    desired: bool,
    store_id: i64,
) -> Seq<StatusChange>
    decreases groups.len(),
{
    if groups.len() == 0 {
        Seq::empty()
    } else {
        spec_group_changes(groups.drop_last(), gid, desired, store_id) + (if groups.last().group_id
            == gid {
            spec_item_changes(groups.last().items, desired, store_id)
        } else {
            Seq::empty()
        })
    }
}

/// The option-item changes of all referenced group ids, in reference
/// order.
pub open spec fn spec_gids_changes(
    gids: Seq<i64>,
    groups: Seq<ObservedModifierGroupModel>,
    desired: bool,
    store_id: i64,
) -> Seq<StatusChange>
    decreases gids.len(),
{
    if gids.len() == 0 {
        Seq::empty()
    } else {
        spec_gids_changes(gids.drop_last(), groups, desired, store_id) + spec_group_changes(
            groups,
            gids.last(),
            desired,
            store_id,
        )
    }
}

/// The modifier part of one flag's changes: nothing under the sentinel,
/// the referenced groups' item changes otherwise.
pub open spec fn spec_modifier_changes(
    mref: ModifierRefModel,
    groups: Seq<ObservedModifierGroupModel>,
    desired: bool,
    store_id: i64,
) -> Seq<StatusChange> {
    match mref {
        ModifierRefModel::Ids(gids) => spec_gids_changes(gids, groups, desired, store_id),
        ModifierRefModel::Sentinel(_) => Seq::empty(),
    }
}

/// All changes one desired flag asks for: the product change when the
/// observed status disagrees, then the flag's modifier-item changes.
pub open spec fn spec_flag_changes(
    flag: ActiveMenuFlagModel,
    obs: ObservedMenuStateModel,
    store_id: i64,
) -> Seq<StatusChange> {
    (match spec_product_status(obs.products, flag.product_id) {
        Option::Some(st) => if status_active(st) != flag.status {
            seq![
                StatusChange {
                    target: ChangeTarget::Product,
                    target_id: flag.product_id,
                    store_id,
                    status: flag.status,
                },
            ]
        } else {
            Seq::empty()
        },
        Option::None => Seq::empty(),
    }) + spec_modifier_changes(flag.modifier_group_ids, obs.groups, flag.status, store_id)
}

/// The full diff: every flag's changes, in flag order. A pure function of
/// desired and observed state.
pub open spec fn spec_status_changes(
    flags: Seq<ActiveMenuFlagModel>,
    obs: ObservedMenuStateModel,
    store_id: i64,
) -> Seq<StatusChange>
    decreases flags.len(),
{
    if flags.len() == 0 {
        Seq::empty()
    } else {
        spec_status_changes(flags.drop_last(), obs, store_id) + spec_flag_changes(
            flags.last(),
            obs,
            store_id,
        )
    }
}

/// Looks up the first observed status of one product id.
fn find_product_status(observed: &ObservedMenuState, product_id: i64) -> (r: Option<String>)
    ensures
        r is Some <==> spec_product_status(observed@.products, product_id) is Some,
        r matches Some(s) ==> spec_product_status(observed@.products, product_id) == Option::Some(
            s@,
        ),
{
    let ghost products = observed@.products;
    proof {
        assert(products.skip(0) =~= products);
    }
    let mut i: usize = 0;
    while i < observed.products.len()
        invariant
            i <= observed.products.len(),
            products == observed@.products,
            products.len() == observed.products.len(),
            spec_product_status(products, product_id) == spec_product_status(
                products.skip(i as int),
                product_id,
            ),
        decreases observed.products.len() - i,
    {
        proof {
            assert(products.skip(i as int).len() > 0);
            assert(products.skip(i as int)[0] == products[i as int]);
            assert(products.skip(i as int).skip(1) =~= products.skip(i + 1));
        }
        if observed.products[i].product_id == product_id {
            return Some(observed.products[i].status.clone());
        }
        i = i + 1;
    }
    proof {
        assert(products.skip(i as int).len() == 0);
    }
    None
}

/// True of the status text the platform uses for an active item.
fn is_status_active(s: &String) -> (r: bool)
    ensures
        r == status_active(s@),
{
    let active: String = String::from_str("active");
    s.eq(&active)
}

/// The option-item changes for one group's items, in item order.
fn item_changes(
    items: &Vec<ObservedOptionItem>,
    desired: bool,
    store_id: i64,
    out: &mut Vec<StatusChange>,
)
    ensures
        final(out)@ == old(out)@ + spec_item_changes(items.deep_view(), desired, store_id),
{
    let ghost model = items.deep_view();
    let mut i: usize = 0;
    while i < items.len()
        invariant
            i <= items.len(),
            model == items.deep_view(),
            model.len() == items.len(),
            out@ == old(out)@ + spec_item_changes(model.take(i as int), desired, store_id),
        decreases items.len() - i,
    {
        proof {
            assert(model.take(i + 1).drop_last() =~= model.take(i as int));
            assert(model.take(i + 1).last() == model[i as int]);
            assert(model[i as int].status == items[i as int].status@);
            assert(model[i as int].option_item_id == items[i as int].option_item_id);
        }
        let active = is_status_active(&items[i].status);
        if active != desired {
            out.push(
                StatusChange {
                    target: ChangeTarget::OptionItem,
                    target_id: items[i].option_item_id,
                    store_id,
                    status: desired,
                },
            );
        }
        i = i + 1;
        proof {
            assert(out@ =~= old(out)@ + spec_item_changes(
                model.take(i as int),
                desired,
                store_id,
            ));
        }
    }
    proof {
        assert(model.take(items@.len() as int) =~= model);
    }
}

/// The option-item changes of every observed group carrying one group id.
fn group_changes(
    groups: &Vec<ObservedModifierGroup>,
    gid: i64,
    desired: bool,
    store_id: i64,
    out: &mut Vec<StatusChange>,
)
    ensures
        final(out)@ == old(out)@ + spec_group_changes(groups.deep_view(), gid, desired, store_id),
{
    let ghost model = groups.deep_view();
    let mut i: usize = 0;
    while i < groups.len()
        invariant
            i <= groups.len(),
            model == groups.deep_view(),
            model.len() == groups.len(),
            out@ == old(out)@ + spec_group_changes(model.take(i as int), gid, desired, store_id),
        decreases groups.len() - i,
    {
        proof {
            assert(model.take(i + 1).drop_last() =~= model.take(i as int));
            assert(model.take(i + 1).last() == model[i as int]);
            assert(model[i as int].group_id == groups[i as int].group_id);
            assert(model[i as int].items == groups[i as int].items.deep_view());
        }
        if groups[i].group_id == gid {
            item_changes(&groups[i].items, desired, store_id, out);
        }
        i = i + 1;
        proof {
            assert(out@ =~= old(out)@ + spec_group_changes(
                model.take(i as int),
                gid,
                desired,
                store_id,
            ));
        }
    }
    proof {
        assert(model.take(groups@.len() as int) =~= model);
    }
}

/// All changes one desired flag asks for, appended in order: the product
/// change when observed and desired status disagree, then the option-item
/// changes of every group the flag references.
pub fn flag_changes(
    flag: &MigrosActiveMenu,
    observed: &ObservedMenuState,
    store_id: i64,
    out: &mut Vec<StatusChange>,
)
    ensures
        final(out)@ == old(out)@ + spec_flag_changes(flag@, observed@, store_id),
{
    match find_product_status(observed, flag.product_id) {
        Some(st) => {
            let active = is_status_active(&st);
            if active != flag.status {
                out.push(
                    StatusChange {
                        target: ChangeTarget::Product,
                        target_id: flag.product_id,
                        store_id,
                        status: flag.status,
                    },
                );
            }
        },
        None => {},
    }
    let ghost after_product = out@;
    match &flag.modifier_group_ids {
        ModifierGroupIdsEnum::Ids(gids) => {
            let ghost gmodel = gids.deep_view();
            let mut i: usize = 0;
            while i < gids.len()
                invariant
                    i <= gids.len(),
                    gmodel == gids.deep_view(),
                    gmodel.len() == gids.len(),
                    out@ == after_product + spec_gids_changes(
                        gmodel.take(i as int),
                        observed@.groups,
                        flag.status,
                        store_id,
                    ),
                decreases gids.len() - i,
            {
                proof {
                    assert(gmodel.take(i + 1).drop_last() =~= gmodel.take(i as int));
                    assert(gmodel.take(i + 1).last() == gmodel[i as int]);
                    assert(gmodel[i as int] == gids[i as int]);
                }
                group_changes(&observed.groups, gids[i], flag.status, store_id, out);
                i = i + 1;
                proof {
                    assert(out@ =~= after_product + spec_gids_changes(
                        gmodel.take(i as int),
                        observed@.groups,
                        flag.status,
                        store_id,
                    ));
                }
            }
            proof {
                assert(gmodel.take(gids@.len() as int) =~= gmodel);
                assert(out@ =~= old(out)@ + spec_flag_changes(flag@, observed@, store_id));
            }
        },
        ModifierGroupIdsEnum::Sentinel(_) => {
            proof {
                assert(out@ =~= old(out)@ + spec_flag_changes(flag@, observed@, store_id));
            }
        },
    }
}

/// The list of status changes needed to make the observed state match the
/// desired flags: a pure function of the two, in flag order then
/// modifier-item order. All statuses already matching, or no flags at
/// all, yield the empty list.
pub fn compute_status_changes(
    flags: &Vec<MigrosActiveMenu>,
    observed: &ObservedMenuState,
    store_id: i64,
) -> (r: Vec<StatusChange>)
    ensures
        r@ == spec_status_changes(flags.deep_view(), observed@, store_id),
{
    let ghost model = flags.deep_view();
    let mut out: Vec<StatusChange> = Vec::new();
    let mut i: usize = 0;
    while i < flags.len()
        invariant
            i <= flags.len(),
            model == flags.deep_view(),
            model.len() == flags.len(),
            out@ == spec_status_changes(model.take(i as int), observed@, store_id),
        decreases flags.len() - i,
    {
        proof {
            assert(model.take(i + 1).drop_last() =~= model.take(i as int));
            assert(model.take(i + 1).last() == model[i as int]);
            assert(model[i as int] == flags[i as int]@);
        }
        flag_changes(&flags[i], observed, store_id, &mut out);
        i = i + 1;
        proof {
            assert(out@ =~= spec_status_changes(model.take(i as int), observed@, store_id));
        }
    }
    proof {
        assert(model.take(flags@.len() as int) =~= model);
    }
    out
}

/// The observed products of one menu header, in report order.
pub open spec fn spec_header_products(items: Seq<MigrosResponseFoodMenuItemDetailsDTOs>) -> Seq<
    ObservedProductModel,
> {
    items.map(
        |i: int, it: MigrosResponseFoodMenuItemDetailsDTOs|
            ObservedProductModel { product_id: it.product_id, status: it.status@ },
    )
}

/// The observed products of a fetched menu: every header's product lines,
/// in header order.
pub open spec fn spec_observed_products(headers: Seq<MigrosResponseMenuHeaderInfos>) -> Seq<
    ObservedProductModel,
>
    decreases headers.len(),
{
    if headers.len() == 0 {
        Seq::empty()
    } else {
        spec_observed_products(headers.drop_last()) + spec_header_products(
            headers.last().food_menu_item_details_dtos@,
        )
    }
}

/// The observed option items one option header reports, in report order.
pub open spec fn spec_group_items(items: Seq<MigrosResponseObjectOptionItemInfosV2>) -> Seq<
    ObservedOptionItemModel,
> {
    items.map(
        |i: int, it: MigrosResponseObjectOptionItemInfosV2|
            ObservedOptionItemModel {
                option_item_id: it.option_item_dto.id,
                status: it.option_item_dto.status@,
            },
    )
}

/// The observed modifier group one option header reports.
pub open spec fn spec_group_of_header(h: MigrosResponseObjectOptionHeaderInfosV2) -> ObservedModifierGroupModel {
    ObservedModifierGroupModel {
        group_id: h.option_header_dto.id,
        owner_id: h.owner_id,
        items: spec_group_items(h.object_option_item_infos_v2@),
    }
}

/// The observed modifier groups a list of option headers reports.
pub open spec fn spec_headers_groups(hs: Seq<MigrosResponseObjectOptionHeaderInfosV2>) -> Seq<
    ObservedModifierGroupModel,
> {
    hs.map(|i: int, h: MigrosResponseObjectOptionHeaderInfosV2| spec_group_of_header(h))
}

/// The observed modifier groups of a fetched option response, in report
/// order.
pub open spec fn spec_observed_groups(data: Seq<MigrosResponseOptionsDetailsData>) -> Seq<
    ObservedModifierGroupModel,
>
    decreases data.len(),
{
    if data.len() == 0 {
        Seq::empty()
    } else {
        spec_observed_groups(data.drop_last()) + spec_headers_groups(
            data.last().options_info.object_option_header_infos_v2@,
        )
    }
}

impl ObservedMenuState {
    /// Flattens the two fetched responses into the observed state the
    /// diff reads: every header's product lines and every option header's
    /// group, in report order.
    pub fn from_responses(
        menu: &MigrosResponseMenuDetails,
        options: &MigrosResponseOptionsDetails,
    ) -> (r: ObservedMenuState)
        ensures
            r@.products == spec_observed_products(menu.data.menu_header_infos@),
            r@.groups == spec_observed_groups(options.data@),
    {
        let headers = &menu.data.menu_header_infos;
        let mut products: Vec<ObservedProduct> = Vec::new();
        let mut h: usize = 0;
        while h < headers.len()
            invariant
                h <= headers.len(),
                products.deep_view() == spec_observed_products(headers@.take(h as int)),
            decreases headers.len() - h,
        {
            let items = &headers[h].food_menu_item_details_dtos;
            let ghost before = products.deep_view();
            let mut j: usize = 0;
            while j < items.len()
                invariant
                    j <= items.len(),
                    items == &headers@[h as int].food_menu_item_details_dtos,
                    h < headers.len(),
                    products.deep_view() == before + spec_header_products(
                        items@.take(j as int),
                    ),
                decreases items.len() - j,
            {
                let ghost pprev = products.deep_view();
                products.push(
                    ObservedProduct {
                        product_id: items[j].product_id,
                        status: items[j].status.clone(),
                    },
                );
                j = j + 1;
                proof {
                    let ghost m = ObservedProductModel {
                        product_id: items@[j - 1].product_id,
                        status: items@[j - 1].status@,
                    };
                    assert(products.deep_view() =~= pprev.push(m));
                    assert(spec_header_products(items@.take(j as int)) =~= spec_header_products(
                        items@.take(j - 1),
                    ).push(m));
                    assert(pprev.push(m) =~= before + spec_header_products(
                        items@.take(j as int),
                    ));
                }
            }
            h = h + 1;
            proof {
                assert(items@.take(items@.len() as int) =~= items@);
                assert(headers@.take(h as int).drop_last() =~= headers@.take(h - 1));
                assert(headers@.take(h as int).last() == headers@[h - 1]);
                assert(products.deep_view() =~= spec_observed_products(
                    headers@.take(h as int),
                ));
            }
        }
        proof {
            assert(headers@.take(headers@.len() as int) =~= headers@);
        }
        let data = &options.data;
        let mut groups: Vec<ObservedModifierGroup> = Vec::new();
        let mut d: usize = 0;
        while d < data.len()
            invariant
                d <= data.len(),
                groups.deep_view() == spec_observed_groups(data@.take(d as int)),
            decreases data.len() - d,
        {
            let hs = &data[d].options_info.object_option_header_infos_v2;
            let ghost gbefore = groups.deep_view();
            let mut g: usize = 0;
            while g < hs.len()
                invariant
                    g <= hs.len(),
                    hs == &data@[d as int].options_info.object_option_header_infos_v2,
                    d < data.len(),
                    groups.deep_view() == gbefore + spec_headers_groups(hs@.take(g as int)),
                decreases hs.len() - g,
            {
                let gitems = &hs[g].object_option_item_infos_v2;
                let mut items_vec: Vec<ObservedOptionItem> = Vec::new();
                let mut k: usize = 0;
                while k < gitems.len()
                    invariant
                        k <= gitems.len(),
                        gitems == &hs@[g as int].object_option_item_infos_v2,
                        g < hs.len(),
                        items_vec.deep_view() == spec_group_items(gitems@.take(k as int)),
                    decreases gitems.len() - k,
                {
                    let ghost iprev = items_vec.deep_view();
                    items_vec.push(
                        ObservedOptionItem {
                            option_item_id: gitems[k].option_item_dto.id,
                            status: gitems[k].option_item_dto.status.clone(),
                        },
                    );
                    k = k + 1;
                    proof {
                        let ghost m = ObservedOptionItemModel {
                            option_item_id: gitems@[k - 1].option_item_dto.id,
                            status: gitems@[k - 1].option_item_dto.status@,
                        };
                        assert(items_vec.deep_view() =~= iprev.push(m));
                        assert(spec_group_items(gitems@.take(k as int)) =~= spec_group_items(
                            gitems@.take(k - 1),
                        ).push(m));
                    }
                }
                let ghost gprev = groups.deep_view();
                let ghost items_model = items_vec.deep_view();
                groups.push(
                    ObservedModifierGroup {
                        group_id: hs[g].option_header_dto.id,
                        owner_id: hs[g].owner_id,
                        items: items_vec,
                    },
                );
                g = g + 1;
                proof {
                    assert(gitems@.take(gitems@.len() as int) =~= gitems@);
                    let ghost gm = ObservedModifierGroupModel {
                        group_id: hs@[g - 1].option_header_dto.id,
                        owner_id: hs@[g - 1].owner_id,
                        items: items_model,
                    };
                    assert(gm == spec_group_of_header(hs@[g - 1]));
                    assert(groups.deep_view() =~= gprev.push(gm));
                    assert(spec_headers_groups(hs@.take(g as int)) =~= spec_headers_groups(
                        hs@.take(g - 1),
                    ).push(gm));
                    assert(gprev.push(gm) =~= gbefore + spec_headers_groups(hs@.take(g as int)));
                }
            }
            d = d + 1;
            proof {
                assert(hs@.take(hs@.len() as int) =~= hs@);
                assert(data@.take(d as int).drop_last() =~= data@.take(d - 1));
                assert(data@.take(d as int).last() == data@[d - 1]);
                assert(groups.deep_view() =~= spec_observed_groups(data@.take(d as int)));
            }
        }
        proof {
            assert(data@.take(data@.len() as int) =~= data@);
        }
        ObservedMenuState { products, groups }
    }
}

/// True when every item of a group already carries the desired status.
pub open spec fn items_matched(items: Seq<ObservedOptionItemModel>, desired: bool) -> bool {
    forall|k: int| 0 <= k < items.len() ==> status_active(#[trigger] items[k].status) == desired
}

/// True when every observed group with the given id has all items at the
/// desired status.
pub open spec fn groups_matched(
    groups: Seq<ObservedModifierGroupModel>,
    gid: i64,
    desired: bool,
) -> bool {
    forall|j: int|
        0 <= j < groups.len() && (#[trigger] groups[j]).group_id == gid ==> items_matched(
            groups[j].items,
            desired,
        )
}

/// True when every referenced group id is matched.
pub open spec fn gids_matched(
    gids: Seq<i64>,
    groups: Seq<ObservedModifierGroupModel>,
    desired: bool,
) -> bool {
    forall|i: int| 0 <= i < gids.len() ==> groups_matched(groups, #[trigger] gids[i], desired)
}

/// True when one desired flag already holds on the platform: the observed
/// product status (when reported) equals the desired one, and, when the
/// flag references modifier groups, so does every item of every
/// referenced group.
pub open spec fn flag_matched(flag: ActiveMenuFlagModel, obs: ObservedMenuStateModel) -> bool {
    &&& match spec_product_status(obs.products, flag.product_id) {
        Option::Some(st) => status_active(st) == flag.status,
        Option::None => true,
    }
    &&& match flag.modifier_group_ids {
        ModifierRefModel::Ids(gids) => gids_matched(gids, obs.groups, flag.status),
        ModifierRefModel::Sentinel(_) => true,
    }
}

proof fn lemma_items_matched_no_changes(
    items: Seq<ObservedOptionItemModel>,
    desired: bool,
    store_id: i64,
)
    requires
        items_matched(items, desired),
    ensures
        spec_item_changes(items, desired, store_id) == Seq::<StatusChange>::empty(),
    decreases items.len(),
{
    if items.len() > 0 {
        assert(items_matched(items.drop_last(), desired));
        lemma_items_matched_no_changes(items.drop_last(), desired, store_id);
        assert(items.last() == items[items.len() - 1]);
        assert(spec_item_changes(items, desired, store_id) =~= Seq::<StatusChange>::empty());
    }
}

proof fn lemma_groups_matched_no_changes(
    groups: Seq<ObservedModifierGroupModel>,
    gid: i64,
    desired: bool,
    store_id: i64,
)
    requires
        groups_matched(groups, gid, desired),
    ensures
        spec_group_changes(groups, gid, desired, store_id) == Seq::<StatusChange>::empty(),
    decreases groups.len(),
{
    if groups.len() > 0 {
        assert(groups_matched(groups.drop_last(), gid, desired));
        lemma_groups_matched_no_changes(groups.drop_last(), gid, desired, store_id);
        if groups.last().group_id == gid {
            assert(groups.last() == groups[groups.len() - 1]);
            lemma_items_matched_no_changes(groups.last().items, desired, store_id);
        }
        assert(spec_group_changes(groups, gid, desired, store_id) =~= Seq::<
            StatusChange,
        >::empty());
    }
}

proof fn lemma_gids_matched_no_changes(
    gids: Seq<i64>,
    groups: Seq<ObservedModifierGroupModel>,
    desired: bool,
    store_id: i64,
)
    requires
        gids_matched(gids, groups, desired),
    ensures
        spec_gids_changes(gids, groups, desired, store_id) == Seq::<StatusChange>::empty(),
    decreases gids.len(),
{
    if gids.len() > 0 {
        assert(gids_matched(gids.drop_last(), groups, desired));
        lemma_gids_matched_no_changes(gids.drop_last(), groups, desired, store_id);
        assert(gids.last() == gids[gids.len() - 1]);
        lemma_groups_matched_no_changes(groups, gids.last(), desired, store_id);
        assert(spec_gids_changes(gids, groups, desired, store_id) =~= Seq::<
            StatusChange,
        >::empty());
    }
}

/// A flag whose desired status already holds everywhere asks for no
/// change.
pub proof fn lemma_flag_matched_no_changes(
    flag: ActiveMenuFlagModel,
    obs: ObservedMenuStateModel,
    store_id: i64,
)
    requires
        flag_matched(flag, obs),
    ensures
        spec_flag_changes(flag, obs, store_id) == Seq::<StatusChange>::empty(),
{
    match flag.modifier_group_ids {
        ModifierRefModel::Ids(gids) => {
            lemma_gids_matched_no_changes(gids, obs.groups, flag.status, store_id);
        },
        ModifierRefModel::Sentinel(_) => {},
    }
    assert(spec_flag_changes(flag, obs, store_id) =~= Seq::<StatusChange>::empty());
}

/// The diff is empty when the desired status already equals the observed
/// one for every flag.
pub proof fn lemma_all_matched_diff_empty(
    flags: Seq<ActiveMenuFlagModel>,
    obs: ObservedMenuStateModel,
    store_id: i64,
)
    requires
        forall|i: int| 0 <= i < flags.len() ==> flag_matched(#[trigger] flags[i], obs),
    ensures
        spec_status_changes(flags, obs, store_id) == Seq::<StatusChange>::empty(),
    decreases flags.len(),
{
    if flags.len() > 0 {
        assert(forall|i: int|
            0 <= i < flags.drop_last().len() ==> flag_matched(
                #[trigger] flags.drop_last()[i],
                obs,
            ));
        lemma_all_matched_diff_empty(flags.drop_last(), obs, store_id);
        assert(flags.last() == flags[flags.len() - 1]);
        lemma_flag_matched_no_changes(flags.last(), obs, store_id);
        assert(spec_status_changes(flags, obs, store_id) =~= Seq::<StatusChange>::empty());
    }
}

/// When every flag but one is matched, the diff is exactly that one
/// flag's changes: no change is emitted for unrelated flags.
pub proof fn lemma_single_unmatched_flag_diff(
    flags: Seq<ActiveMenuFlagModel>,
    obs: ObservedMenuStateModel,
    store_id: i64,
    i: int,
)
    requires
        0 <= i < flags.len(),
        forall|j: int| 0 <= j < flags.len() && j != i ==> flag_matched(#[trigger] flags[j], obs),
    ensures
        spec_status_changes(flags, obs, store_id) == spec_flag_changes(flags[i], obs, store_id),
    decreases flags.len(),
{
    if i == flags.len() - 1 {
        assert(forall|j: int|
            0 <= j < flags.drop_last().len() ==> flag_matched(
                #[trigger] flags.drop_last()[j],
                obs,
            ));
        lemma_all_matched_diff_empty(flags.drop_last(), obs, store_id);
        assert(flags.last() == flags[i]);
        assert(Seq::<StatusChange>::empty() + spec_flag_changes(flags[i], obs, store_id)
            =~= spec_flag_changes(flags[i], obs, store_id));
    } else {
        assert(forall|j: int|
            0 <= j < flags.drop_last().len() && j != i ==> flag_matched(
                #[trigger] flags.drop_last()[j],
                obs,
            ));
        lemma_single_unmatched_flag_diff(flags.drop_last(), obs, store_id, i);
        assert(flags.last() == flags[flags.len() - 1]);
        lemma_flag_matched_no_changes(flags.last(), obs, store_id);
        assert(flags.drop_last()[i] == flags[i]);
        assert(spec_flag_changes(flags[i], obs, store_id) + Seq::<StatusChange>::empty()
            =~= spec_flag_changes(flags[i], obs, store_id));
    }
}

/// Flipping one desired product status against the observed one, on a
/// flag without modifier references, asks for exactly that product's
/// change.
pub proof fn lemma_product_flip_single_change(
    flag: ActiveMenuFlagModel,
    obs: ObservedMenuStateModel,
    store_id: i64,
    st: Seq<char>,
)
    requires
        spec_product_status(obs.products, flag.product_id) == Option::Some(st),
        status_active(st) != flag.status,
        flag.modifier_group_ids is Sentinel,
    ensures
        spec_flag_changes(flag, obs, store_id) == seq![
            StatusChange {
                target: ChangeTarget::Product,
                target_id: flag.product_id,
                store_id,
                status: flag.status,
            },
        ],
{
    assert(spec_flag_changes(flag, obs, store_id) =~= seq![
        StatusChange {
            target: ChangeTarget::Product,
            target_id: flag.product_id,
            store_id,
            status: flag.status,
        },
    ]);
}

} // verus!
