//! The locator registry: a fixed table mapping each logical UI target of the
//! router's admin console to its CSS selector, plus the two navigation labels
//! the workflow asserts on. Selectors are defined once here and never built
//! dynamically.

use vstd::prelude::*;
use vstd::string::*;

verus! {

/// Logical names for every UI element the workflow touches.
#[derive(Clone, Copy, PartialEq, Eq, Structural, Debug)]
pub enum Target {
    PasswordInput,
    LoginButton,
    HamburgerMenu,
    NavItem,
    NavItemTitle,
    SubNavItem,
    SubNavItemTitle,
    EnabledToggle,
    DisabledToggle,
    ApplyButton,
    BusyOverlay,
}

/// The selector registered for a logical target.
pub open spec fn spec_selector(t: Target) -> Seq<char> {
    match t {
        Target::PasswordInput => "input[type='password']#Password_m"@,
        Target::LoginButton => "input[type='button']#LoginBtn_m"@,
        Target::HamburgerMenu => "div.hamburger-menu"@,
        Target::NavItem => "li.main-item.mobile-navigation-item-3"@,
        Target::NavItemTitle => "a.mobile-navigation-item-title"@,
        Target::SubNavItem => "ul > li:nth-child(3)"@,
        Target::SubNavItemTitle => "a.mobile-sub-navigation-item-title"@,
        Target::EnabledToggle => ".content-port-mapping .table-row > td > .button.button-on"@,
        Target::DisabledToggle => ".content-port-mapping .table-row > td > .button.button-off"@,
        Target::ApplyButton => ".content-port-mapping input[type='button'][value='Apply'].button.button-apply#applyButton"@,
        Target::BusyOverlay => ".blackBackground"@,
    }
}

/// Look a selector up in the registry.
pub fn selector(t: Target) -> (r: String)
    ensures
        r@ == spec_selector(t),
{
    match t {
        Target::PasswordInput => String::from_str("input[type='password']#Password_m"),
        Target::LoginButton => String::from_str("input[type='button']#LoginBtn_m"),
        Target::HamburgerMenu => String::from_str("div.hamburger-menu"),
        Target::NavItem => String::from_str("li.main-item.mobile-navigation-item-3"),
        Target::NavItemTitle => String::from_str("a.mobile-navigation-item-title"),
        Target::SubNavItem => String::from_str("ul > li:nth-child(3)"),
        Target::SubNavItemTitle => String::from_str("a.mobile-sub-navigation-item-title"),
        Target::EnabledToggle => String::from_str(
            ".content-port-mapping .table-row > td > .button.button-on",
        ),
        Target::DisabledToggle => String::from_str(
            ".content-port-mapping .table-row > td > .button.button-off",
        ),
        Target::ApplyButton => String::from_str(
            ".content-port-mapping input[type='button'][value='Apply'].button.button-apply#applyButton",
        ),
        Target::BusyOverlay => String::from_str(".blackBackground"),
    }
}

/// The label the top-level navigation item must carry; any other text fails
/// the whole run as a compatibility tripwire.
pub open spec fn spec_nav_item_label() -> Seq<char> {
    "Internet"@
}

/// The label the sub-navigation item must carry.
pub open spec fn spec_sub_item_label() -> Seq<char> {
    "IPv6 Host Exposure"@
}

pub fn nav_item_label() -> (r: String)
    ensures
        r@ == spec_nav_item_label(),
{
    String::from_str("Internet")
}

pub fn sub_item_label() -> (r: String)
    ensures
        r@ == spec_sub_item_label(),
{
    String::from_str("IPv6 Host Exposure")
}

} // verus!
