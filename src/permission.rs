use vstd::prelude::*;

verus! {

/// A permission that a Saleor staff user or app can hold; a verified token
/// lists the ones its bearer holds by their wire names.
#[derive(Clone, Copy, Debug, PartialEq, Eq, Structural, Hash)]
pub enum SaleorPermission {
    ManageUsers,
    ManageStaff,
    ImpersonateUser,
    ManageApps,
    ManageObservability,
    ManageCheckouts,
    HandleCheckouts,
    HandleTaxes,
    ManageTaxes,
    ManageChannels,
    ManageDiscounts,
    ManageGiftCard,
    ManageMenus,
    ManageOrders,
    ManageOrdersImport,
    ManagePages,
    ManagePageTypesAndAttributes,
    HandlePayments,
    ManagePlugins,
    ManageProducts,
    ManageProductTypesAndAttributes,
    ManageShipping,
    ManageSettings,
    ManageTranslations,
}

/// The name under which a permission appears in a token's claims.
pub open spec fn permission_name(p: SaleorPermission) -> Seq<char> {
    match p {
        SaleorPermission::ManageUsers => "MANAGE_USERS"@,
        SaleorPermission::ManageStaff => "MANAGE_STAFF"@,
        SaleorPermission::ImpersonateUser => "IMPERSONATE_USER"@,
        SaleorPermission::ManageApps => "MANAGE_APPS"@,
        SaleorPermission::ManageObservability => "MANAGE_OBSERVABILITY"@,
        SaleorPermission::ManageCheckouts => "MANAGE_CHECKOUTS"@,
        SaleorPermission::HandleCheckouts => "HANDLE_CHECKOUTS"@,
        SaleorPermission::HandleTaxes => "HANDLE_TAXES"@,
        SaleorPermission::ManageTaxes => "MANAGE_TAXES"@,
        SaleorPermission::ManageChannels => "MANAGE_CHANNELS"@,
        SaleorPermission::ManageDiscounts => "MANAGE_DISCOUNTS"@,
        SaleorPermission::ManageGiftCard => "MANAGE_GIFT_CARD"@,
        SaleorPermission::ManageMenus => "MANAGE_MENUS"@,
        SaleorPermission::ManageOrders => "MANAGE_ORDERS"@,
        SaleorPermission::ManageOrdersImport => "MANAGE_ORDERS_IMPORT"@,
        SaleorPermission::ManagePages => "MANAGE_PAGES"@,
        SaleorPermission::ManagePageTypesAndAttributes => "MANAGE_PAGE_TYPES_AND_ATTRIBUTES"@,
        SaleorPermission::HandlePayments => "HANDLE_PAYMENTS"@,
        SaleorPermission::ManagePlugins => "MANAGE_PLUGINS"@,
        SaleorPermission::ManageProducts => "MANAGE_PRODUCTS"@,
        SaleorPermission::ManageProductTypesAndAttributes => "MANAGE_PRODUCT_TYPES_AND_ATTRIBUTES"@,
        SaleorPermission::ManageShipping => "MANAGE_SHIPPING"@,
        SaleorPermission::ManageSettings => "MANAGE_SETTINGS"@,
        SaleorPermission::ManageTranslations => "MANAGE_TRANSLATIONS"@,
    }
}

impl SaleorPermission {
    /// The wire name of the permission.
    pub fn name(&self) -> (r: &'static str)
        ensures
            r@ == permission_name(*self),
    {
        match self {
            SaleorPermission::ManageUsers => "MANAGE_USERS",
            SaleorPermission::ManageStaff => "MANAGE_STAFF",
            SaleorPermission::ImpersonateUser => "IMPERSONATE_USER",
            SaleorPermission::ManageApps => "MANAGE_APPS",
            SaleorPermission::ManageObservability => "MANAGE_OBSERVABILITY",
            SaleorPermission::ManageCheckouts => "MANAGE_CHECKOUTS",
            SaleorPermission::HandleCheckouts => "HANDLE_CHECKOUTS",
            SaleorPermission::HandleTaxes => "HANDLE_TAXES",
            SaleorPermission::ManageTaxes => "MANAGE_TAXES",
            SaleorPermission::ManageChannels => "MANAGE_CHANNELS",
            SaleorPermission::ManageDiscounts => "MANAGE_DISCOUNTS",
            SaleorPermission::ManageGiftCard => "MANAGE_GIFT_CARD",
            SaleorPermission::ManageMenus => "MANAGE_MENUS",
            SaleorPermission::ManageOrders => "MANAGE_ORDERS",
            SaleorPermission::ManageOrdersImport => "MANAGE_ORDERS_IMPORT",
            SaleorPermission::ManagePages => "MANAGE_PAGES",
            SaleorPermission::ManagePageTypesAndAttributes => "MANAGE_PAGE_TYPES_AND_ATTRIBUTES",
            SaleorPermission::HandlePayments => "HANDLE_PAYMENTS",
            SaleorPermission::ManagePlugins => "MANAGE_PLUGINS",
            SaleorPermission::ManageProducts => "MANAGE_PRODUCTS",
            SaleorPermission::ManageProductTypesAndAttributes => "MANAGE_PRODUCT_TYPES_AND_ATTRIBUTES",
            SaleorPermission::ManageShipping => "MANAGE_SHIPPING",
            SaleorPermission::ManageSettings => "MANAGE_SETTINGS",
            SaleorPermission::ManageTranslations => "MANAGE_TRANSLATIONS",
        }
    }
}

} // verus!
