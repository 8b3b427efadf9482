use crate::account::Account;
use vstd::prelude::*;

verus! {

/// Shortest username accepted, in bytes.
pub const MIN_USERNAME_LEN: usize = 3;

/// Longest username accepted, in bytes.
pub const MAX_USERNAME_LEN: usize = 32;

/// The keys under which a host stores the registry's state.
#[derive(Clone, Copy, Debug, PartialEq, Eq, Structural)]
pub enum DataKey {
    Admin,
    Usernames,
    Addresses,
}

/// Why a registry operation was refused.
#[derive(Clone, Copy, Debug, PartialEq, Eq, Structural)]
pub enum RegistryError {
    NotInitialized,
    AlreadyInitialized,
    Unauthorized,
    InvalidUsername,
    UsernameTaken,
    AlreadyRegistered,
    /// The address has no username.
    NotRegistered,
    /// The username belongs to no address.
    NotFound,
}

/// The pairs of username and address held in `entries`.
pub open spec fn entries_view(entries: Seq<Registration>) -> Seq<(Seq<u8>, Account)> {
    entries.map_values(|e: Registration| (e.username@, e.address))
}

/// One username and the address it names.
pub struct Registration {
    pub username: Vec<u8>,
    pub address: Account,
}

/// The abstract state of a registry: whether it is initialized, its
/// administrator if it has one, and its registrations as pairs of a
/// username and an address.
pub struct RegistryState {
    pub initialized: bool,
    pub admin: Option<Account>,
    pub entries: Seq<(Seq<u8>, Account)>,
}

impl RegistryState {
    /// Some registration holds the username `name`.
    pub open spec fn has_name(self, name: Seq<u8>) -> bool {
        exists|i: int| 0 <= i < self.entries.len() && (#[trigger] self.entries[i]).0 == name
    }

    /// Some registration holds the address `a`.
    pub open spec fn has_address(self, a: Account) -> bool {
        exists|i: int| 0 <= i < self.entries.len() && (#[trigger] self.entries[i]).1 == a
    }

    /// No username and no address is registered twice, and nothing is
    /// registered before initialization.
    pub open spec fn wf(self) -> bool {
        &&& !self.initialized ==> self.entries.len() == 0
        &&& forall|i: int, j: int|
            0 <= i < j < self.entries.len() ==> (#[trigger] self.entries[i]).0 != (
            #[trigger] self.entries[j]).0 && self.entries[i].1 != self.entries[j].1
    }

    /// `Unauthorized` unless `caller` is the administrator.
    pub open spec fn admin_error(self, caller: Account) -> Option<RegistryError> {
        if self.admin == Some(caller) {
            None
        } else {
            Some(RegistryError::Unauthorized)
        }
    }
}

/// A two-way map between usernames and addresses: each address has at most
/// one username, each username names at most one address.
pub struct RegistryContract {
    initialized: bool,
    admin: Option<Account>,
    entries: Vec<Registration>,
}

impl View for RegistryContract {
    type V = RegistryState;

    closed spec fn view(&self) -> RegistryState {
        RegistryState {
            initialized: self.initialized,
            admin: self.admin,
            entries: entries_view(self.entries@),
        }
    }
}

/// Whether two byte strings are equal.
fn bytes_equal(a: &Vec<u8>, b: &Vec<u8>) -> (r: bool)
    ensures
        r == (a@ == b@),
{
    if a.len() != b.len() {
        return false;
    }
    let mut i: usize = 0;
    while i < a.len()
        invariant
            a@.len() == b@.len(),
            i <= a@.len(),
            forall|j: int| 0 <= j < i ==> a@[j] == b@[j],
        decreases a@.len() - i,
    {
        if a[i] != b[i] {
            return false;
        }
        i = i + 1;
    }
    assert(a@ =~= b@);
    true
}

/// A copy of a byte string.
fn copy_bytes(a: &Vec<u8>) -> (r: Vec<u8>)
    ensures
        r@ == a@,
{
    let mut r: Vec<u8> = Vec::new();
    let mut i: usize = 0;
    while i < a.len()
        invariant
            i <= a@.len(),
            r@ == a@.take(i as int),
        decreases a@.len() - i,
    {
        r.push(a[i]);
        i = i + 1;
        assert(r@ =~= a@.take(i as int));
    }
    assert(a@.take(i as int) =~= a@);
    r
}

impl RegistryContract {
    /// A registry that has not been initialized.
    pub fn new() -> (r: RegistryContract)
        ensures
            r@.wf(),
            !r@.initialized,
            r@.admin is None,
            r@.entries.len() == 0,
    {
        RegistryContract { initialized: false, admin: None, entries: Vec::new() }
    }

    /// Rebuilds a registry from stored parts; `None` unless they are well
    /// formed.
    pub fn from_parts(initialized: bool, admin: Option<Account>, entries: Vec<Registration>) -> (r:
        Option<RegistryContract>)
        ensures
            r is Some <==> (RegistryState {
                initialized,
                admin,
                entries: entries_view(entries@),
            }).wf(),
            r matches Some(c) ==> c@ == (RegistryState {
                initialized,
                admin,
                entries: entries_view(entries@),
            }),
    {
        let ghost m = entries_view(entries@);
        if !initialized && entries.len() > 0 {
            return None;
        }
        let mut i: usize = 0;
        while i < entries.len()
            invariant
                i <= entries@.len(),
                m == entries_view(entries@),
                forall|x: int, y: int|
                    0 <= x < y < m.len() && x < i ==> m[x].0 != m[y].0 && m[x].1 != m[y].1,
            decreases entries@.len() - i,
        {
            let mut j: usize = i + 1;
            while j < entries.len()
                invariant
                    i < entries@.len(),
                    i < j <= entries@.len(),
                    m == entries_view(entries@),
                    forall|x: int, y: int|
                        0 <= x < y < m.len() && x < i ==> m[x].0 != m[y].0 && m[x].1 != m[y].1,
                    forall|y: int| i < y < j ==> m[i as int].0 != m[y].0 && m[i as int].1 != m[y].1,
                decreases entries@.len() - j,
            {
                if bytes_equal(&entries[i].username, &entries[j].username)
                    || entries[i].address.same(&entries[j].address) {
                    proof {
                        assert(m[i as int] == (entries@[i as int].username@, entries@[i as int].address));
                        assert(m[j as int] == (entries@[j as int].username@, entries@[j as int].address));
                        let st = RegistryState { initialized, admin, entries: m };
                        assert(st.entries[i as int].0 == st.entries[j as int].0
                            || st.entries[i as int].1 == st.entries[j as int].1);
                        assert(!st.wf());
                    }
                    return None;
                }
                j = j + 1;
            }
            i = i + 1;
        }
        Some(RegistryContract { initialized, admin, entries })
    }

    /// Whether the registry is initialized.
    pub fn is_initialized(&self) -> (r: bool)
        ensures
            r == self@.initialized,
    {
        self.initialized
    }

    /// The administrator, if there is one.
    pub fn admin(&self) -> (r: Option<Account>)
        ensures
            r == self@.admin,
    {
        self.admin
    }

    /// Every registration.
    pub fn entries(&self) -> (r: &Vec<Registration>)
        ensures
            entries_view(r@) == self@.entries,
    {
        &self.entries
    }

    /// Starts the registry, with an administrator or without one; once.
    pub fn initialize(&mut self, admin: Option<Account>) -> (r: Result<(), RegistryError>)
        requires
            old(self)@.wf(),
        ensures
            final(self)@.wf(),
            old(self)@.initialized ==> r == Err::<(), RegistryError>(
                RegistryError::AlreadyInitialized,
            ) && final(self)@ == old(self)@,
            !old(self)@.initialized ==> r is Ok && final(self)@ == (RegistryState {
                initialized: true,
                admin,
                entries: old(self)@.entries,
            }),
    {
        if self.initialized {
            return Err(RegistryError::AlreadyInitialized);
        }
        self.initialized = true;
        self.admin = admin;
        Ok(())
    }

    fn find_username(&self, name: &Vec<u8>) -> (r: Option<usize>)
        ensures
            (match r {
                Some(i) => i < self@.entries.len() && self@.entries[i as int].0 == name@,
                None => !self@.has_name(name@),
            }),
    {
        let mut i: usize = 0;
        while i < self.entries.len()
            invariant
                i <= self@.entries.len(),
                forall|j: int| 0 <= j < i ==> self@.entries[j].0 != name@,
            decreases self@.entries.len() - i,
        {
            if bytes_equal(&self.entries[i].username, name) {
                return Some(i);
            }
            i = i + 1;
        }
        None
    }

    fn find_address(&self, a: &Account) -> (r: Option<usize>)
        ensures
            (match r {
                Some(i) => i < self@.entries.len() && self@.entries[i as int].1 == *a,
                None => !self@.has_address(*a),
            }),
    {
        let mut i: usize = 0;
        while i < self.entries.len()
            invariant
                i <= self@.entries.len(),
                forall|j: int| 0 <= j < i ==> self@.entries[j].1 != *a,
            decreases self@.entries.len() - i,
        {
            if self.entries[i].address.same(a) {
                return Some(i);
            }
            i = i + 1;
        }
        None
    }

    /// Gives `caller` the username `username`: 3 to 32 bytes, not taken,
    /// and only if `caller` has none yet.
    pub fn register(&mut self, caller: Account, username: Vec<u8>) -> (r: Result<
        (),
        RegistryError,
    >)
        requires
            old(self)@.wf(),
        ensures
            final(self)@.wf(),
            r == (if !old(self)@.initialized {
                Err(RegistryError::NotInitialized)
            } else if username@.len() < MIN_USERNAME_LEN || username@.len() > MAX_USERNAME_LEN {
                Err(RegistryError::InvalidUsername)
            } else if old(self)@.has_name(username@) {
                Err(RegistryError::UsernameTaken)
            } else if old(self)@.has_address(caller) {
                Err(RegistryError::AlreadyRegistered)
            } else {
                Ok(())
            }),
            r is Err ==> final(self)@ == old(self)@,
            r is Ok ==> final(self)@ == (RegistryState {
                entries: old(self)@.entries.push((username@, caller)),
                ..old(self)@
            }),
    {
        if !self.initialized {
            return Err(RegistryError::NotInitialized);
        }
        if username.len() < MIN_USERNAME_LEN || username.len() > MAX_USERNAME_LEN {
            return Err(RegistryError::InvalidUsername);
        }
        if self.find_username(&username).is_some() {
            return Err(RegistryError::UsernameTaken);
        }
        if self.find_address(&caller).is_some() {
            return Err(RegistryError::AlreadyRegistered);
        }
        let ghost before = self@.entries;
        let ghost name = username@;
        self.entries.push(Registration { username, address: caller });
        proof {
            assert(self@.entries =~= before.push((name, caller)));
            assert forall|i: int, j: int|
                0 <= i < j < self@.entries.len() implies (#[trigger] self@.entries[i]).0 != (
                #[trigger] self@.entries[j]).0 && self@.entries[i].1 != self@.entries[j].1 by {
                if j == before.len() {
                    assert(before[i] == self@.entries[i]);
                }
            }
        }
        Ok(())
    }

    /// Removes the registration at `i`.
    fn remove_at(&mut self, i: usize)
        requires
            old(self)@.wf(),
            i < old(self)@.entries.len(),
        ensures
            final(self)@ == (RegistryState {
                entries: old(self)@.entries.remove(i as int),
                ..old(self)@
            }),
            final(self)@.wf(),
    {
        let ghost before = self@.entries;
        self.entries.remove(i);
        proof {
            assert(self@.entries =~= before.remove(i as int));
            assert forall|a: int, b: int|
                0 <= a < b < self@.entries.len() implies (#[trigger] self@.entries[a]).0 != (
                #[trigger] self@.entries[b]).0 && self@.entries[a].1 != self@.entries[b].1 by {
                let a0 = if a < i { a } else { a + 1 };
                let b0 = if b < i { b } else { b + 1 };
                assert(self@.entries[a] == before[a0]);
                assert(self@.entries[b] == before[b0]);
            }
        }
    }

    /// Removes the username of `caller`.
    pub fn unregister(&mut self, caller: Account) -> (r: Result<(), RegistryError>)
        requires
            old(self)@.wf(),
        ensures
            final(self)@.wf(),
            r == (if !old(self)@.initialized {
                Err(RegistryError::NotInitialized)
            } else if !old(self)@.has_address(caller) {
                Err(RegistryError::NotRegistered)
            } else {
                Ok(())
            }),
            r is Err ==> final(self)@ == old(self)@,
            r is Ok ==> exists|i: int|
                0 <= i < old(self)@.entries.len() && old(self)@.entries[i].1 == caller
                    && final(self)@ == (RegistryState {
                    entries: old(self)@.entries.remove(i),
                    ..old(self)@
                }),
    {
        if !self.initialized {
            return Err(RegistryError::NotInitialized);
        }
        match self.find_address(&caller) {
            None => Err(RegistryError::NotRegistered),
            Some(i) => {
                self.remove_at(i);
                Ok(())
            },
        }
    }

    /// The address that `username` names.
    pub fn resolve(&self, username: &Vec<u8>) -> (r: Result<Account, RegistryError>)
        requires
            self@.wf(),
        ensures
            !self@.initialized ==> r == Err::<Account, RegistryError>(
                RegistryError::NotInitialized,
            ),
            self@.initialized && !self@.has_name(username@) ==> r == Err::<Account, RegistryError>(
                RegistryError::NotFound,
            ),
            self@.initialized && self@.has_name(username@) ==> (r matches Ok(a)
                && self@.entries.contains((username@, a))),
    {
        if !self.initialized {
            return Err(RegistryError::NotInitialized);
        }
        match self.find_username(username) {
            None => Err(RegistryError::NotFound),
            Some(i) => {
                proof {
                    assert(self@.entries[i as int] == (username@, self.entries@[i as int].address));
                }
                Ok(self.entries[i].address)
            },
        }
    }

    /// The username of `address`.
    pub fn lookup(&self, address: Account) -> (r: Result<Vec<u8>, RegistryError>)
        requires
            self@.wf(),
        ensures
            !self@.initialized ==> r is Err && r->Err_0 == RegistryError::NotInitialized,
            self@.initialized && !self@.has_address(address) ==> r is Err && r->Err_0
                == RegistryError::NotRegistered,
            self@.initialized && self@.has_address(address) ==> (r is Ok
                && self@.entries.contains((r->Ok_0@, address))),
    {
        if !self.initialized {
            return Err(RegistryError::NotInitialized);
        }
        match self.find_address(&address) {
            None => Err(RegistryError::NotRegistered),
            Some(i) => {
                let name = copy_bytes(&self.entries[i].username);
                proof {
                    assert(self@.entries[i as int] == (name@, address));
                }
                Ok(name)
            },
        }
    }

    /// Hands administration to `new_admin`; the administrator only.
    pub fn set_admin(&mut self, caller: Account, new_admin: Account) -> (r: Result<
        (),
        RegistryError,
    >)
        requires
            old(self)@.wf(),
        ensures
            final(self)@.wf(),
            r == (match old(self)@.admin_error(caller) {
                Some(e) => Err(e),
                None => Ok(()),
            }),
            r is Err ==> final(self)@ == old(self)@,
            r is Ok ==> final(self)@ == (RegistryState { admin: Some(new_admin), ..old(self)@ }),
    {
        if let Some(e) = self.check_admin(&caller) {
            return Err(e);
        }
        self.admin = Some(new_admin);
        Ok(())
    }

    /// Removes the registration of `username`; the administrator only.
    pub fn admin_remove(&mut self, caller: Account, username: &Vec<u8>) -> (r: Result<
        (),
        RegistryError,
    >)
        requires
            old(self)@.wf(),
        ensures
            final(self)@.wf(),
            r == (match old(self)@.admin_error(caller) {
                Some(e) => Err(e),
                None => if !old(self)@.initialized {
                    Err(RegistryError::NotInitialized)
                } else if !old(self)@.has_name(username@) {
                    Err(RegistryError::NotFound)
                } else {
                    Ok(())
                },
            }),
            r is Err ==> final(self)@ == old(self)@,
            r is Ok ==> exists|i: int|
                0 <= i < old(self)@.entries.len() && old(self)@.entries[i].0 == username@
                    && final(self)@ == (RegistryState {
                    entries: old(self)@.entries.remove(i),
                    ..old(self)@
                }),
    {
        if let Some(e) = self.check_admin(&caller) {
            return Err(e);
        }
        if !self.initialized {
            return Err(RegistryError::NotInitialized);
        }
        match self.find_username(username) {
            None => Err(RegistryError::NotFound),
            Some(i) => {
                self.remove_at(i);
                Ok(())
            },
        }
    }

    fn check_admin(&self, caller: &Account) -> (r: Option<RegistryError>)
        ensures
            r == self@.admin_error(*caller),
    {
        match self.admin {
            Some(a) => if a.same(caller) {
                None
            } else {
                Some(RegistryError::Unauthorized)
            },
            None => Some(RegistryError::Unauthorized),
        }
    }
}

} // verus!
