//! The entries of the navigation bar.
use vstd::prelude::*;

verus! {

/// An entry of the navigation bar.
#[derive(Debug, Clone, Copy)]
pub struct NavItem {
    pub key: &'static str,
    pub path: &'static str,
    pub label: &'static str,
}

/// Entry `i` of the navigation bar is (`key`, `path`, `label`).
pub open spec fn nav_entry(items: Seq<NavItem>, i: int, key: Seq<char>, path: Seq<char>, label: Seq<char>) -> bool {
    items[i].key@ == key && items[i].path@ == path && items[i].label@ == label
}

/// The navigation bar: home page, processes, instances, logout.
pub fn nav_items() -> (r: Vec<NavItem>)
    ensures
        r@.len() == 4,
        nav_entry(r@, 0, "Home page"@, "/"@, "Home page"@),
        nav_entry(r@, 1, "processes"@, "/processes"@, "Processes"@),
        nav_entry(r@, 2, "instances"@, "/processes/instances"@, "Instances"@),
        nav_entry(r@, 3, "logout"@, "/logout"@, "Logout"@),
{
    let mut r = Vec::new();
    r.push(NavItem { key: "Home page", path: "/", label: "Home page" });
    r.push(NavItem { key: "processes", path: "/processes", label: "Processes" });
    r.push(NavItem { key: "instances", path: "/processes/instances", label: "Instances" });
    r.push(NavItem { key: "logout", path: "/logout", label: "Logout" });
    r
}

} // verus!
