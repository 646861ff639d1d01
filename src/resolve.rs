//! Choosing the package manager to target: an explicit override, else the
//! family of the host's distribution.

use vstd::prelude::*;

verus! {

/// The native package managers that can be targeted.
#[derive(Clone, Copy, Debug, PartialEq, Eq, Structural)]
pub enum PackageManagerKind {
    Pacman,
    Apt,
    Yum,
    Apk,
}

/// Flags that force the choice of a manager.
#[derive(Clone, Copy, Debug, PartialEq, Eq, Structural)]
pub struct Overrides {
    pub apt: bool,
    pub apk: bool,
    pub yum: bool,
    pub pacman: bool,
}

/// Why no package manager could be chosen.
#[derive(Clone, Copy, Debug, PartialEq, Eq, Structural)]
pub enum ResolveError {
    /// No override was given and the host's distribution matches no known family.
    UnsupportedSystem,
}

impl ResolveError {
    /// A message for the user, suggesting an override flag.
    pub fn message(&self) -> (r: &'static str)
        ensures
            r@ == "It appears you have an unsupported package manager! If you do have a supported package manager, try using an override flag (like \"--pacman\")"@,
    {
        "It appears you have an unsupported package manager! If you do have a supported package manager, try using an override flag (like \"--pacman\")"
    }
}

/// The number of flags that are set.
pub open spec fn override_count(o: Overrides) -> nat {
    (if o.apt { 1nat } else { 0nat }) + (if o.apk { 1nat } else { 0nat }) + (if o.yum {
        1nat
    } else {
        0nat
    }) + (if o.pacman { 1nat } else { 0nat })
}

impl Overrides {
    /// The flags are mutually exclusive.
    pub open spec fn valid(self) -> bool {
        override_count(self) <= 1
    }

    /// The manager that the flags force, if any.
    pub open spec fn chosen(self) -> Option<PackageManagerKind> {
        if self.apt {
            Some(PackageManagerKind::Apt)
        } else if self.apk {
            Some(PackageManagerKind::Apk)
        } else if self.yum {
            Some(PackageManagerKind::Yum)
        } else if self.pacman {
            Some(PackageManagerKind::Pacman)
        } else {
            None
        }
    }

    pub fn is_valid(&self) -> (r: bool)
        ensures
            r == self.valid(),
    {
        let n: u8 = (if self.apt { 1u8 } else { 0u8 }) + (if self.apk { 1u8 } else { 0u8 }) + (
        if self.yum {
            1u8
        } else {
            0u8
        }) + (if self.pacman { 1u8 } else { 0u8 });
        n <= 1
    }
}

/// Whether two distribution ids name the same distribution, as whatadistro
/// parses them.
pub uninterp spec fn same_distro_id(a: Seq<char>, b: Seq<char>) -> bool;

/// Whether whatadistro lists `other` among the distributions similar to `id`.
pub uninterp spec fn ids_similar(id: Seq<char>, other: Seq<char>) -> bool;

/// Relies on `whatadistro::DistroId::from` and the derived `==` of
/// `DistroId`: equal names parse to equal ids.
#[verifier::external_body]
fn distro_ids_equal(a: &str, b: &str) -> (r: bool)
    ensures
        r == same_distro_id(a@, b@),
        a@ == b@ ==> r,
{
    whatadistro::DistroId::from(a) == whatadistro::DistroId::from(b)
}

/// Relies on `whatadistro::DistroId::is_similar`, on the id that
/// `DistroId::from` parses from `id`: an id is always similar to itself.
#[verifier::external_body]
fn distro_id_is_similar(id: &str, other: &str) -> (r: bool)
    ensures
        r == ids_similar(id@, other@),
        id@ == other@ ==> r,
{
    whatadistro::DistroId::from(id).is_similar(other)
}

/// What is known of the host's distribution: its id (`ID`) and the ids it
/// declares itself similar to (`ID_LIKE`).
#[derive(Debug)]
pub struct DistroFacts {
    pub id: String,
    pub similar_ids: Vec<String>,
}

/// The model of [`DistroFacts`].
pub struct DistroFactsView {
    pub id: Seq<char>,
    pub similar_ids: Seq<Seq<char>>,
}

impl View for DistroFacts {
    type V = DistroFactsView;

    open spec fn view(&self) -> DistroFactsView {
        DistroFactsView { id: self.id@, similar_ids: self.similar_ids@.map_values(|s: String| s@) }
    }
}

/// The distribution is `family` or of its family.
pub open spec fn distro_similar(d: DistroFactsView, family: Seq<char>) -> bool {
    ||| exists|i: int| 0 <= i < d.similar_ids.len() && same_distro_id(d.similar_ids[i], family)
    ||| ids_similar(d.id, family)
}

/// The manager of the distribution's family, checked in a fixed order.
pub open spec fn detected_kind(d: DistroFactsView) -> Option<PackageManagerKind> {
    if distro_similar(d, "arch"@) {
        Some(PackageManagerKind::Pacman)
    } else if distro_similar(d, "debian"@) {
        Some(PackageManagerKind::Apt)
    } else if distro_similar(d, "rhel"@) || distro_similar(d, "fedora"@) {
        Some(PackageManagerKind::Yum)
    } else {
        None
    }
}

/// The manager chosen from the flags and, only when no flag is set, from
/// the detected distribution (`None` when detection found none).
pub open spec fn resolution(o: Overrides, detected: Option<DistroFactsView>) -> Result<
    PackageManagerKind,
    ResolveError,
> {
    match o.chosen() {
        Some(k) => Ok(k),
        None => match detected {
            Some(d) => match detected_kind(d) {
                Some(k) => Ok(k),
                None => Err(ResolveError::UnsupportedSystem),
            },
            None => Err(ResolveError::UnsupportedSystem),
        },
    }
}

/// The model of an optional detection result.
pub open spec fn detected_view(detected: Option<&DistroFacts>) -> Option<DistroFactsView> {
    match detected {
        Some(d) => Some(d@),
        None => None,
    }
}

impl DistroFacts {
    /// Whether the distribution is `family` or of its family.
    pub fn is_similar(&self, family: &str) -> (r: bool)
        ensures
            r == distro_similar(self@, family@),
    {
        let mut i: usize = 0;
        while i < self.similar_ids.len()
            invariant
                0 <= i <= self.similar_ids@.len(),
                forall|j: int|
                    0 <= j < i ==> !same_distro_id(self@.similar_ids[j], family@),
            decreases self.similar_ids@.len() - i,
        {
            if distro_ids_equal(self.similar_ids[i].as_str(), family) {
                assert(self@.similar_ids[i as int] == self.similar_ids@[i as int]@);
                return true;
            }
            i = i + 1;
        }
        assert(forall|j: int|
            0 <= j < self@.similar_ids.len() ==> self@.similar_ids[j] == self.similar_ids@[j]@);
        distro_id_is_similar(self.id.as_str(), family)
    }
}

/// The manager that the flags force, if any.
pub fn override_manager(o: &Overrides) -> (r: Option<PackageManagerKind>)
    ensures
        r == o.chosen(),
{
    if o.apt {
        Some(PackageManagerKind::Apt)
    } else if o.apk {
        Some(PackageManagerKind::Apk)
    } else if o.yum {
        Some(PackageManagerKind::Yum)
    } else if o.pacman {
        Some(PackageManagerKind::Pacman)
    } else {
        None
    }
}

/// The manager of the detected distribution's family.
pub fn detected_manager(detected: Option<&DistroFacts>) -> (r: Result<
    PackageManagerKind,
    ResolveError,
>)
    ensures
        r == resolution(Overrides { apt: false, apk: false, yum: false, pacman: false }, detected_view(detected)),
{
    match detected {
        None => Err(ResolveError::UnsupportedSystem),
        Some(d) => {
            if d.is_similar("arch") {
                Ok(PackageManagerKind::Pacman)
            } else if d.is_similar("debian") {
                Ok(PackageManagerKind::Apt)
            } else if d.is_similar("rhel") || d.is_similar("fedora") {
                Ok(PackageManagerKind::Yum)
            } else {
                Err(ResolveError::UnsupportedSystem)
            }
        },
    }
}

/// Chooses the manager: a set flag wins, and `detected` is read only when
/// no flag is set.
pub fn get_package_manager(o: &Overrides, detected: Option<&DistroFacts>) -> (r: Result<
    PackageManagerKind,
    ResolveError,
>)
    ensures
        r == resolution(*o, detected_view(detected)),
{
    match override_manager(o) {
        Some(k) => Ok(k),
        None => detected_manager(detected),
    }
}

} // verus!

verus! {

/// A set flag decides alone: the result is its manager whatever detection
/// found, or whether it found anything.
pub proof fn lemma_override_wins(
    o: Overrides,
    detected: Option<DistroFactsView>,
    other: Option<DistroFactsView>,
)
    requires
        override_count(o) == 1,
    ensures
        resolution(o, detected) == resolution(o, other),
        o.apt ==> resolution(o, detected) == Ok::<PackageManagerKind, ResolveError>(
            PackageManagerKind::Apt,
        ),
        o.apk ==> resolution(o, detected) == Ok::<PackageManagerKind, ResolveError>(
            PackageManagerKind::Apk,
        ),
        o.yum ==> resolution(o, detected) == Ok::<PackageManagerKind, ResolveError>(
            PackageManagerKind::Yum,
        ),
        o.pacman ==> resolution(o, detected) == Ok::<PackageManagerKind, ResolveError>(
            PackageManagerKind::Pacman,
        ),
{
}

/// With no flag set, an Arch-family distribution gives pacman, a
/// Debian-family one apt, a RHEL- or Fedora-family one yum, and any other
/// an unsupported system, as does a failed detection.
pub proof fn lemma_detected_families(d: DistroFactsView)
    ensures
        ({
            let none = Overrides { apt: false, apk: false, yum: false, pacman: false };
            &&& distro_similar(d, "arch"@) ==> resolution(none, Some(d)) == Ok::<
                PackageManagerKind,
                ResolveError,
            >(PackageManagerKind::Pacman)
            &&& !distro_similar(d, "arch"@) && distro_similar(d, "debian"@) ==> resolution(
                none,
                Some(d),
            ) == Ok::<PackageManagerKind, ResolveError>(PackageManagerKind::Apt)
            &&& !distro_similar(d, "arch"@) && !distro_similar(d, "debian"@) && (distro_similar(
                d,
                "rhel"@,
            ) || distro_similar(d, "fedora"@)) ==> resolution(none, Some(d)) == Ok::<
                PackageManagerKind,
                ResolveError,
            >(PackageManagerKind::Yum)
            &&& detected_kind(d) is None ==> resolution(none, Some(d)) == Err::<
                PackageManagerKind,
                ResolveError,
            >(ResolveError::UnsupportedSystem)
            &&& resolution(none, None) == Err::<PackageManagerKind, ResolveError>(
                ResolveError::UnsupportedSystem,
            )
        }),
{
}

} // verus!
