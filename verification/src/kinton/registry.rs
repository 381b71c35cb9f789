//! The registry of devices: which device identifiers are taken, and what
//! was issued to each.

use vstd::prelude::*;

use crate::kinton::identity::{register_url, registration_url};
use crate::table::Table;

verus! {

/// Why a registration did not happen.
#[derive(Debug, Clone, Copy, PartialEq, Eq, Structural)]
pub enum RegistryError {
    /// The device identifier is already registered.
    DuplicateRegistration,
    /// The identity service answered without a `uuid` or without a `secret`.
    InvalidIdentityResponse,
    /// The identity service or the broker could not be reached. The caller,
    /// who owns the connections, is the one to report it.
    NetworkError,
}

impl RegistryError {
    /// The error in words.
    pub fn message(&self) -> (words: &'static str)
        ensures
            words@ == match *self {
                RegistryError::DuplicateRegistration => "Device already exists"@,
                RegistryError::InvalidIdentityResponse => "Invalid response"@,
                RegistryError::NetworkError => "Network error"@,
            },
    {
        match self {
            RegistryError::DuplicateRegistration => "Device already exists",
            RegistryError::InvalidIdentityResponse => "Invalid response",
            RegistryError::NetworkError => "Network error",
        }
    }
}

/// What the registry keeps of a registered device, as mathematical values.
pub struct RegistrationView {
    pub kinton_uuid: Seq<char>,
    pub kinton_secret: Seq<char>,
    pub broker: Seq<char>,
}

/// What the registry keeps of a registered device: the identity that the
/// cloud issued to it, and the address of its broker.
#[derive(Debug, Clone, PartialEq, Eq)]
pub struct Registration {
    pub kinton_uuid: String,
    pub kinton_secret: String,
    pub broker: String,
}

impl View for Registration {
    type V = RegistrationView;

    open spec fn view(&self) -> RegistrationView {
        RegistrationView {
            kinton_uuid: self.kinton_uuid@,
            kinton_secret: self.kinton_secret@,
            broker: self.broker@,
        }
    }
}

/// What enrolling a device under `device_uid` makes of a registry and
/// answers: a taken identifier is refused and the registry stays as it was;
/// a free one is entered.
pub open spec fn enrolled(
    registry: Map<Seq<char>, RegistrationView>,
    device_uid: Seq<char>,
    registration: RegistrationView,
) -> (Map<Seq<char>, RegistrationView>, Result<(), RegistryError>) {
    if registry.contains_key(device_uid) {
        (registry, Err(RegistryError::DuplicateRegistration))
    } else {
        (registry.insert(device_uid, registration), Ok(()))
    }
}

/// The registered devices, by device identifier.
pub struct Registry {
    devices: Table<Registration>,
}

impl View for Registry {
    type V = Map<Seq<char>, RegistrationView>;

    closed spec fn view(&self) -> Map<Seq<char>, RegistrationView> {
        self.devices@.map_values(|r: Registration| r@)
    }
}

impl Registry {
    /// The registry without devices.
    pub fn new() -> (registry: Registry)
        ensures
            registry@ == Map::<Seq<char>, RegistrationView>::empty(),
    {
        let registry = Registry { devices: Table::new() };
        assert(registry@ =~= Map::<Seq<char>, RegistrationView>::empty());
        registry
    }

    /// The number of registered devices.
    pub fn len(&self) -> (n: usize)
        ensures
            self@.dom().finite(),
            n == self@.dom().len(),
    {
        assert(self@.dom() =~= self.devices@.dom());
        self.devices.len()
    }

    /// Whether a device identifier is registered.
    pub fn contains(&self, device_uid: &str) -> (taken: bool)
        ensures
            taken == self@.contains_key(device_uid@),
    {
        self.devices.contains_key(device_uid)
    }

    /// What is registered under a device identifier.
    pub fn get(&self, device_uid: &str) -> (found: Option<&Registration>)
        ensures
            match found {
                Some(registration) => self@.contains_key(device_uid@) && self@[device_uid@]
                    == registration@,
                None => !self@.contains_key(device_uid@),
            },
    {
        self.devices.get(device_uid)
    }

    /// The first step of a registration: refuses a device identifier that is
    /// taken, before anything is asked of the identity service; for a free
    /// one, gives the address to post to.
    pub fn request(&self, device_uid: &str, fleet_key: &str, api_url: &str) -> (r: Result<
        String,
        RegistryError,
    >)
        ensures
            match r {
                Ok(url) => !self@.contains_key(device_uid@) && url@ == register_url(
                    api_url@,
                    fleet_key@,
                ),
                Err(e) => self@.contains_key(device_uid@) && e
                    == RegistryError::DuplicateRegistration,
            },
    {
        if self.contains(device_uid) {
            Err(RegistryError::DuplicateRegistration)
        } else {
            Ok(registration_url(api_url, fleet_key))
        }
    }

    /// The last step of a registration: enters a device under its
    /// identifier, unless the identifier is taken.
    pub fn enroll(&mut self, device_uid: String, registration: Registration) -> (r: Result<
        (),
        RegistryError,
    >)
        ensures
            (final(self)@, r) == enrolled(old(self)@, device_uid@, registration@),
    {
        if self.contains(device_uid.as_str()) {
            return Err(RegistryError::DuplicateRegistration);
        }
        let ghost before = self.devices@;
        self.devices.insert(device_uid, registration);
        assert(self@ =~= old(self)@.insert(device_uid@, registration@));
        Ok(())
    }
}

/// Of two registrations under one device identifier, one after the other,
/// exactly one succeeds: on a registry that does not hold the identifier the
/// first is entered and the second is refused as a duplicate, and the
/// registry keeps what the first entered.
pub proof fn lemma_one_registration_per_uid(
    registry: Map<Seq<char>, RegistrationView>,
    device_uid: Seq<char>,
    first: RegistrationView,
    second: RegistrationView,
)
    requires
        !registry.contains_key(device_uid),
    ensures
        ({
            let (after_first, first_answer) = enrolled(registry, device_uid, first);
            let (after_second, second_answer) = enrolled(after_first, device_uid, second);
            &&& first_answer is Ok
            &&& second_answer == Err::<(), RegistryError>(RegistryError::DuplicateRegistration)
            &&& after_second == after_first
            &&& after_second == registry.insert(device_uid, first)
        }),
{
}

/// A refused registration leaves nothing behind: whenever enrolling answers
/// with an error, the registry is as it was.
pub proof fn lemma_failed_registration_changes_nothing(
    registry: Map<Seq<char>, RegistrationView>,
    device_uid: Seq<char>,
    registration: RegistrationView,
)
    ensures
        enrolled(registry, device_uid, registration).1 is Err ==> enrolled(
            registry,
            device_uid,
            registration,
        ).0 == registry,
        enrolled(registry, device_uid, registration).1 is Ok <==> !registry.contains_key(
            device_uid,
        ),
{
}

} // verus!
