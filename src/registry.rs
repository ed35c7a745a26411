use vstd::prelude::*;

use crate::event::HWND;

verus! {

/// The part a window plays in the viewer.
#[derive(Clone, Copy, Debug, PartialEq, Eq, Structural)]
pub enum Role {
    Main,
    List,
}

/// Which window plays which role. Each role is taken once, by the first window
/// registered for it; a window holds at most one role; nothing is ever removed.
pub struct WindowRegistry {
    main: Option<HWND>,
    list: Option<HWND>,
}

/// The role that is not `role`.
pub open spec fn other_role(role: Role) -> Role {
    match role {
        Role::Main => Role::List,
        Role::List => Role::Main,
    }
}

impl WindowRegistry {
    /// The window registered for `role`, if any.
    pub closed spec fn holder(self, role: Role) -> Option<HWND> {
        match role {
            Role::Main => self.main,
            Role::List => self.list,
        }
    }

    /// The role of window `id`, if it has one.
    pub open spec fn role_of(self, id: HWND) -> Option<Role> {
        if self.holder(Role::Main) == Some(id) {
            Some(Role::Main)
        } else if self.holder(Role::List) == Some(id) {
            Some(Role::List)
        } else {
            None
        }
    }

    /// No window holds both roles.
    pub open spec fn wf(self) -> bool {
        self.holder(Role::Main) is Some && self.holder(Role::List) is Some ==> self.holder(
            Role::Main,
        ) != self.holder(Role::List)
    }

    /// Whether registering `id` for `role` takes effect: the role is free and the
    /// window holds no role yet.
    pub open spec fn accepts(self, id: HWND, role: Role) -> bool {
        self.holder(role) is None && self.role_of(id) is None
    }

    /// The registry after asking to register `id` for `role`.
    pub closed spec fn registered(self, id: HWND, role: Role) -> WindowRegistry {
        if self.accepts(id, role) {
            match role {
                Role::Main => WindowRegistry { main: Some(id), ..self },
                Role::List => WindowRegistry { list: Some(id), ..self },
            }
        } else {
            self
        }
    }

    /// What registering does to the holders of the two roles.
    pub proof fn lemma_registered(self, id: HWND, role: Role)
        ensures
            self.accepts(id, role) ==> self.registered(id, role).holder(role) == Some(id),
            self.accepts(id, role) ==> forall|other: Role|
                other != role ==> #[trigger] self.registered(id, role).holder(other) == self.holder(
                    other,
                ),
            !self.accepts(id, role) ==> self.registered(id, role) == self,
    {
    }

    /// A registry with no window in it.
    pub fn new() -> (r: WindowRegistry)
        ensures
            r.wf(),
            r.holder(Role::Main) is None,
            r.holder(Role::List) is None,
    {
        WindowRegistry { main: None, list: None }
    }

    /// Registers `id` for `role` unless the role is taken or the window already
    /// holds one; returns whether it did. A refused request changes nothing.
    pub fn register(&mut self, id: HWND, role: Role) -> (r: bool)
        requires
            old(self).wf(),
        ensures
            final(self).wf(),
            r == old(self).accepts(id, role),
            *final(self) == old(self).registered(id, role),
            r ==> final(self).holder(role) == Some(id),
            r ==> final(self).holder(other_role(role)) == old(self).holder(other_role(role)),
            !r ==> *final(self) == *old(self),
    {
        if self.resolve(id).is_some() {
            return false;
        }
        match role {
            Role::Main => {
                if self.main.is_some() {
                    return false;
                }
                self.main = Some(id);
            },
            Role::List => {
                if self.list.is_some() {
                    return false;
                }
                self.list = Some(id);
            },
        }
        true
    }

    /// The role of window `id`; `None` for a window that was never registered.
    pub fn resolve(&self, id: HWND) -> (r: Option<Role>)
        ensures
            r == self.role_of(id),
    {
        if self.main == Some(id) {
            Some(Role::Main)
        } else if self.list == Some(id) {
            Some(Role::List)
        } else {
            None
        }
    }
}

/// A window that already holds a role keeps it, whatever role a later request
/// asks for it.
pub proof fn lemma_register_keeps_role(reg: WindowRegistry, id: HWND, role: Role, asked: Role)
    requires
        reg.wf(),
        reg.role_of(id) == Some(role),
    ensures
        reg.registered(id, asked).role_of(id) == Some(role),
{
    reg.lemma_registered(id, asked);
}

} // verus!
