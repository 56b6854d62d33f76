//! Which top-level modules a role sees in the navigation, in display order.

use vstd::prelude::*;
use crate::auth_state::Role;

verus! {

/// The top-level modules of the frontend.
#[derive(Clone, Copy, Debug, PartialEq, Eq, Structural)]
pub enum NavItem {
    Home,
    Catalog,
    WorkOrders,
    Forum,
    Internship,
    Warehouse,
    Face,
    Admin,
}

/// Requesters, service managers and administrators work with the catalog
/// and work orders.
pub open spec fn uses_catalog(role: Role) -> bool {
    role == Role::Requester || role == Role::ServiceManager || role == Role::Administrator
}

/// Interns, mentors and administrators use the internship module.
pub open spec fn uses_internship(role: Role) -> bool {
    role == Role::Intern || role == Role::Mentor || role == Role::Administrator
}

/// Warehouse managers and administrators use the warehouse module.
pub open spec fn uses_warehouse(role: Role) -> bool {
    role == Role::WarehouseManager || role == Role::Administrator
}

/// The menu of `role`: Home; Catalog and Work Orders where the role uses
/// them; Forum; Internship and Warehouse where the role uses them; Face; and
/// Admin for administrators.
pub open spec fn menu(role: Role) -> Seq<NavItem> {
    seq![NavItem::Home] + (if uses_catalog(role) {
        seq![NavItem::Catalog, NavItem::WorkOrders]
    } else {
        Seq::empty()
    }) + seq![NavItem::Forum] + (if uses_internship(role) {
        seq![NavItem::Internship]
    } else {
        Seq::empty()
    }) + (if uses_warehouse(role) {
        seq![NavItem::Warehouse]
    } else {
        Seq::empty()
    }) + seq![NavItem::Face] + (if role == Role::Administrator {
        seq![NavItem::Admin]
    } else {
        Seq::empty()
    })
}

/// The modules available to `role`, in display order.
pub fn menu_for(role: Role) -> (out: Vec<NavItem>)
    ensures
        out@ == menu(role),
{
    let mut out: Vec<NavItem> = Vec::new();
    out.push(NavItem::Home);
    let ghost a = out@;
    if role == Role::Requester || role == Role::ServiceManager || role == Role::Administrator {
        out.push(NavItem::Catalog);
        out.push(NavItem::WorkOrders);
    }
    let ghost b = out@;
    out.push(NavItem::Forum);
    let ghost c = out@;
    if role == Role::Intern || role == Role::Mentor || role == Role::Administrator {
        out.push(NavItem::Internship);
    }
    let ghost d = out@;
    if role == Role::WarehouseManager || role == Role::Administrator {
        out.push(NavItem::Warehouse);
    }
    let ghost e = out@;
    out.push(NavItem::Face);
    let ghost f = out@;
    if role == Role::Administrator {
        out.push(NavItem::Admin);
    }
    proof {
        assert(a =~= seq![NavItem::Home]);
        assert(b =~= a + (if uses_catalog(role) {
            seq![NavItem::Catalog, NavItem::WorkOrders]
        } else {
            Seq::empty()
        }));
        assert(c =~= b + seq![NavItem::Forum]);
        assert(d =~= c + (if uses_internship(role) {
            seq![NavItem::Internship]
        } else {
            Seq::empty()
        }));
        assert(e =~= d + (if uses_warehouse(role) {
            seq![NavItem::Warehouse]
        } else {
            Seq::empty()
        }));
        assert(f =~= e + seq![NavItem::Face]);
        assert(out@ =~= f + (if role == Role::Administrator {
            seq![NavItem::Admin]
        } else {
            Seq::empty()
        }));
    }
    out
}

/// Whether `item` is in the menu of `role`.
pub fn role_can_see(role: Role, item: &NavItem) -> (r: bool)
    ensures
        r == menu(role).contains(*item),
{
    let m = menu_for(role);
    let mut i: usize = 0;
    while i < m.len()
        invariant
            m@ == menu(role),
            i <= m@.len(),
            forall|k: int| 0 <= k < i ==> m@[k] != *item,
        decreases m.len() - i,
    {
        if m[i] == *item {
            return true;
        }
        i = i + 1;
    }
    proof {
        if menu(role).contains(*item) {
            let k = choose|k: int| 0 <= k < m@.len() && m@[k] == *item;
            assert(m@[k] != *item);
        }
    }
    false
}

/// Every menu starts with Home and holds Forum and Face; Admin is in it
/// exactly for administrators; an administrator sees every module.
pub proof fn menu_laws(role: Role, item: NavItem)
    ensures
        menu(role)[0] == NavItem::Home,
        menu(role).contains(NavItem::Home),
        menu(role).contains(NavItem::Forum),
        menu(role).contains(NavItem::Face),
        menu(role).contains(NavItem::Admin) <==> role == Role::Administrator,
        menu(role).contains(NavItem::Catalog) <==> uses_catalog(role),
        menu(role).contains(NavItem::WorkOrders) <==> uses_catalog(role),
        menu(role).contains(NavItem::Internship) <==> uses_internship(role),
        menu(role).contains(NavItem::Warehouse) <==> uses_warehouse(role),
        menu(Role::Administrator).contains(item),
{
    let m = menu(role);
    assert(m[0] == NavItem::Home);
    let ia = if uses_catalog(role) { 3int } else { 1int };
    assert(m[ia] == NavItem::Forum);
    let ib = ia + 1 + (if uses_internship(role) { 1int } else { 0int }) + (if uses_warehouse(role) {
        1int
    } else {
        0int
    });
    assert(m[ib] == NavItem::Face);
    if role == Role::Administrator {
        assert(m[ib + 1] == NavItem::Admin);
    } else {
        assert(!m.contains(NavItem::Admin)) by {
            if m.contains(NavItem::Admin) {
                let k = choose|k: int| 0 <= k < m.len() && m[k] == NavItem::Admin;
            }
        }
    }
    if uses_catalog(role) {
        assert(m[1] == NavItem::Catalog);
        assert(m[2] == NavItem::WorkOrders);
    } else {
        assert(!m.contains(NavItem::Catalog)) by {
            if m.contains(NavItem::Catalog) {
                let k = choose|k: int| 0 <= k < m.len() && m[k] == NavItem::Catalog;
            }
        }
        assert(!m.contains(NavItem::WorkOrders)) by {
            if m.contains(NavItem::WorkOrders) {
                let k = choose|k: int| 0 <= k < m.len() && m[k] == NavItem::WorkOrders;
            }
        }
    }
    if uses_internship(role) {
        assert(m[ia + 1] == NavItem::Internship);
    } else {
        assert(!m.contains(NavItem::Internship)) by {
            if m.contains(NavItem::Internship) {
                let k = choose|k: int| 0 <= k < m.len() && m[k] == NavItem::Internship;
            }
        }
    }
    if uses_warehouse(role) {
        assert(m[ib - 1] == NavItem::Warehouse);
    } else {
        assert(!m.contains(NavItem::Warehouse)) by {
            if m.contains(NavItem::Warehouse) {
                let k = choose|k: int| 0 <= k < m.len() && m[k] == NavItem::Warehouse;
            }
        }
    }
    let a = menu(Role::Administrator);
    assert(a =~= seq![
        NavItem::Home,
        NavItem::Catalog,
        NavItem::WorkOrders,
        NavItem::Forum,
        NavItem::Internship,
        NavItem::Warehouse,
        NavItem::Face,
        NavItem::Admin,
    ]);
    match item {
        NavItem::Home => assert(a[0] == item),
        NavItem::Catalog => assert(a[1] == item),
        NavItem::WorkOrders => assert(a[2] == item),
        NavItem::Forum => assert(a[3] == item),
        NavItem::Internship => assert(a[4] == item),
        NavItem::Warehouse => assert(a[5] == item),
        NavItem::Face => assert(a[6] == item),
        NavItem::Admin => assert(a[7] == item),
    }
}

} // verus!
