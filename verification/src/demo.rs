//! A small nested enum used to demonstrate and exercise cascading selection:
//! a deployment target (web, desktop or docs), a web region with an
//! availability zone, and a desktop platform.

use vstd::prelude::*;

use crate::infinite_select::{InfiniteSelect, InfiniteSelectPath};

verus! {

/// Where a generated form is deployed.
#[derive(Clone, Copy, Debug, PartialEq, Eq, Structural)]
pub enum DeploymentTarget {
    Web(WebRegion),
    Desktop(DesktopPlatform),
    Docs,
}

/// A web region, holding its availability zone.
#[derive(Clone, Copy, Debug, PartialEq, Eq, Structural)]
pub enum WebRegion {
    UsEast(AvailabilityZone),
    Europe(AvailabilityZone),
}

/// An availability zone within a region.
#[derive(Clone, Copy, Debug, PartialEq, Eq, Structural)]
pub enum AvailabilityZone {
    Primary,
    DisasterRecovery,
}

/// A desktop platform.
#[derive(Clone, Copy, Debug, PartialEq, Eq, Structural)]
pub enum DesktopPlatform {
    MacOs,
    Linux,
    Windows,
}

impl Default for AvailabilityZone {
    fn default() -> (r: Self)
        ensures
            r == AvailabilityZone::Primary,
    {
        AvailabilityZone::Primary
    }
}

impl Default for DesktopPlatform {
    fn default() -> (r: Self)
        ensures
            r == DesktopPlatform::MacOs,
    {
        DesktopPlatform::MacOs
    }
}

impl Default for WebRegion {
    fn default() -> (r: Self)
        ensures
            r == WebRegion::UsEast(AvailabilityZone::Primary),
    {
        WebRegion::UsEast(AvailabilityZone::Primary)
    }
}

impl Default for DeploymentTarget {
    fn default() -> (r: Self)
        ensures
            r == DeploymentTarget::Web(WebRegion::UsEast(AvailabilityZone::Primary)),
    {
        DeploymentTarget::Web(WebRegion::default())
    }
}

impl AvailabilityZone {
    /// The zone at `index`: 0 is primary, 1 disaster recovery.
    pub open spec fn spec_from_index(index: int) -> Option<AvailabilityZone> {
        if index == 0 {
            Some(AvailabilityZone::Primary)
        } else if index == 1 {
            Some(AvailabilityZone::DisasterRecovery)
        } else {
            None
        }
    }

    /// The display name of the zone.
    pub open spec fn spec_name(self) -> Seq<char> {
        match self {
            AvailabilityZone::Primary => "Primary"@,
            AvailabilityZone::DisasterRecovery => "Disaster recovery"@,
        }
    }

    /// The index of the zone.
    pub open spec fn spec_index(self) -> usize {
        match self {
            AvailabilityZone::Primary => 0,
            AvailabilityZone::DisasterRecovery => 1,
        }
    }

    pub fn from_index(index: usize) -> (r: Option<Self>)
        ensures
            r == AvailabilityZone::spec_from_index(index as int),
    {
        match index {
            0 => Some(AvailabilityZone::Primary),
            1 => Some(AvailabilityZone::DisasterRecovery),
            _ => None,
        }
    }

    pub fn name(&self) -> (r: &'static str)
        ensures
            r@ == self.spec_name(),
    {
        match self {
            AvailabilityZone::Primary => "Primary",
            AvailabilityZone::DisasterRecovery => "Disaster recovery",
        }
    }
}

impl DesktopPlatform {
    /// The display name of the platform.
    pub open spec fn spec_name(self) -> Seq<char> {
        match self {
            DesktopPlatform::MacOs => "macOS"@,
            DesktopPlatform::Linux => "Linux"@,
            DesktopPlatform::Windows => "Windows"@,
        }
    }

    /// The index of the platform.
    pub open spec fn spec_index(self) -> usize {
        match self {
            DesktopPlatform::MacOs => 0,
            DesktopPlatform::Linux => 1,
            DesktopPlatform::Windows => 2,
        }
    }

    pub fn name(&self) -> (r: &'static str)
        ensures
            r@ == self.spec_name(),
    {
        match self {
            DesktopPlatform::MacOs => "macOS",
            DesktopPlatform::Linux => "Linux",
            DesktopPlatform::Windows => "Windows",
        }
    }
}

impl WebRegion {
    /// The display name of the region.
    pub open spec fn spec_name(self) -> Seq<char> {
        match self {
            WebRegion::UsEast(_) => "US East"@,
            WebRegion::Europe(_) => "Europe"@,
        }
    }

    /// The zone held by the region.
    pub open spec fn spec_zone(self) -> AvailabilityZone {
        match self {
            WebRegion::UsEast(z) => z,
            WebRegion::Europe(z) => z,
        }
    }

    /// `region / zone`.
    pub open spec fn spec_summary(self) -> Seq<char> {
        self.spec_name() + " / "@ + self.spec_zone().spec_name()
    }

    /// The same region holding `zone`.
    pub open spec fn spec_with_zone(self, zone: AvailabilityZone) -> WebRegion {
        match self {
            WebRegion::UsEast(_) => WebRegion::UsEast(zone),
            WebRegion::Europe(_) => WebRegion::Europe(zone),
        }
    }

    pub fn name(&self) -> (r: &'static str)
        ensures
            r@ == self.spec_name(),
    {
        match self {
            WebRegion::UsEast(_) => "US East",
            WebRegion::Europe(_) => "Europe",
        }
    }

    /// Renders `region / zone`, e.g. `US East / Primary`.
    pub fn summary(&self) -> (r: String)
        ensures
            r@ == self.spec_summary(),
    {
        let zone = match self {
            WebRegion::UsEast(z) => z,
            WebRegion::Europe(z) => z,
        };
        let mut out = String::from_str(self.name());
        out.append(" / ");
        out.append(zone.name());
        out
    }

    pub fn with_zone(&self, zone: AvailabilityZone) -> (r: Self)
        ensures
            r == self.spec_with_zone(zone),
    {
        match self {
            WebRegion::UsEast(_) => WebRegion::UsEast(zone),
            WebRegion::Europe(_) => WebRegion::Europe(zone),
        }
    }
}

impl DeploymentTarget {
    /// `Web / region / zone`, `Desktop / platform` or `Docs`.
    pub open spec fn spec_summary(self) -> Seq<char> {
        match self {
            DeploymentTarget::Web(region) => "Web / "@ + region.spec_summary(),
            DeploymentTarget::Desktop(p) => "Desktop / "@ + p.spec_name(),
            DeploymentTarget::Docs => "Docs"@,
        }
    }

    /// Renders the full selection, e.g. `Web / US East / Primary`.
    pub fn summary(&self) -> (r: String)
        ensures
            r@ == self.spec_summary(),
    {
        match self {
            DeploymentTarget::Web(region) => {
                let mut out = String::from_str("Web / ");
                let rest = region.summary();
                out.append(rest.as_str());
                out
            },
            DeploymentTarget::Desktop(p) => {
                let mut out = String::from_str("Desktop / ");
                out.append(p.name());
                out
            },
            DeploymentTarget::Docs => String::from_str("Docs"),
        }
    }
}

impl InfiniteSelect for DeploymentTarget {
    open spec fn spec_variants() -> Seq<Self> {
        seq![
            DeploymentTarget::Web(WebRegion::UsEast(AvailabilityZone::Primary)),
            DeploymentTarget::Desktop(DesktopPlatform::MacOs),
            DeploymentTarget::Docs,
        ]
    }

    open spec fn spec_variant_name(&self) -> Seq<char> {
        match *self {
            DeploymentTarget::Web(_) => "Web"@,
            DeploymentTarget::Desktop(_) => "Desktop"@,
            DeploymentTarget::Docs => "Docs"@,
        }
    }

    open spec fn spec_has_inner(&self) -> bool {
        !(*self is Docs)
    }

    open spec fn spec_child_variant_names(&self) -> Seq<Seq<char>> {
        match *self {
            DeploymentTarget::Web(_) => seq!["US East"@, "Europe"@],
            DeploymentTarget::Desktop(_) => seq!["macOS"@, "Linux"@, "Windows"@],
            DeploymentTarget::Docs => Seq::empty(),
        }
    }

    open spec fn spec_set_child_by_index(&self, index: int) -> Option<Self> {
        match *self {
            DeploymentTarget::Web(_) => if index == 0 {
                Some(DeploymentTarget::Web(WebRegion::UsEast(AvailabilityZone::Primary)))
            } else if index == 1 {
                Some(DeploymentTarget::Web(WebRegion::Europe(AvailabilityZone::Primary)))
            } else {
                None
            },
            DeploymentTarget::Desktop(_) => if index == 0 {
                Some(DeploymentTarget::Desktop(DesktopPlatform::MacOs))
            } else if index == 1 {
                Some(DeploymentTarget::Desktop(DesktopPlatform::Linux))
            } else if index == 2 {
                Some(DeploymentTarget::Desktop(DesktopPlatform::Windows))
            } else {
                None
            },
            DeploymentTarget::Docs => None,
        }
    }

    open spec fn spec_set_child_by_path(&self, path: Seq<usize>) -> Option<Self> {
        if path.len() == 0 {
            None
        } else {
            match self.spec_set_child_by_index(path[0] as int) {
                None => None,
                Some(c) => if path.len() == 1 {
                    Some(c)
                } else {
                    match c.spec_inner_set_child_by_index(path[1] as int) {
                        None => None,
                        Some(d) => if path.len() > 2 {
                            None
                        } else {
                            Some(d)
                        },
                    }
                },
            }
        }
    }

    open spec fn spec_depth() -> nat {
        3
    }

    open spec fn spec_child_depth(&self) -> nat {
        match self {
            DeploymentTarget::Web(_) => 2,
            DeploymentTarget::Desktop(_) => 1,
            DeploymentTarget::Docs => 0,
        }
    }

    open spec fn spec_selection_path(&self) -> Seq<usize> {
        match *self {
            DeploymentTarget::Web(WebRegion::UsEast(z)) => seq![0usize, 0usize, z.spec_index()],
            DeploymentTarget::Web(WebRegion::Europe(z)) => seq![0usize, 1usize, z.spec_index()],
            DeploymentTarget::Desktop(p) => seq![1usize, p.spec_index()],
            DeploymentTarget::Docs => seq![2usize],
        }
    }

    open spec fn spec_inner_has_inner(&self) -> bool {
        *self is Web
    }

    open spec fn spec_inner_child_variant_names(&self) -> Seq<Seq<char>> {
        match *self {
            DeploymentTarget::Web(_) => seq!["Primary"@, "Disaster recovery"@],
            _ => Seq::empty(),
        }
    }

    open spec fn spec_inner_set_child_by_index(&self, index: int) -> Option<Self> {
        match *self {
            DeploymentTarget::Web(region) => match AvailabilityZone::spec_from_index(index) {
                Some(z) => Some(DeploymentTarget::Web(region.spec_with_zone(z))),
                None => None,
            },
            _ => None,
        }
    }

    fn variants() -> (r: Vec<Self>) {
        let r = vec![
            DeploymentTarget::Web(WebRegion::default()),
            DeploymentTarget::Desktop(DesktopPlatform::default()),
            DeploymentTarget::Docs,
        ];
        assert(r@ =~= Self::spec_variants());
        r
    }

    fn variant_name(&self) -> (r: &'static str) {
        match self {
            DeploymentTarget::Web(_) => "Web",
            DeploymentTarget::Desktop(_) => "Desktop",
            DeploymentTarget::Docs => "Docs",
        }
    }

    fn has_inner(&self) -> (r: bool) {
        match self {
            DeploymentTarget::Docs => false,
            _ => true,
        }
    }

    fn child_variant_names(&self) -> (r: Vec<&'static str>) {
        match self {
            DeploymentTarget::Web(_) => {
                let r = vec!["US East", "Europe"];
                assert(r@.map_values(|n: &'static str| n@) =~= self.spec_child_variant_names());
                r
            },
            DeploymentTarget::Desktop(_) => {
                let r = vec!["macOS", "Linux", "Windows"];
                assert(r@.map_values(|n: &'static str| n@) =~= self.spec_child_variant_names());
                r
            },
            DeploymentTarget::Docs => {
                let r: Vec<&'static str> = Vec::new();
                assert(r@.map_values(|n: &'static str| n@) =~= self.spec_child_variant_names());
                r
            },
        }
    }

    fn set_child_by_index(&self, index: usize) -> (r: Option<Self>) {
        match self {
            DeploymentTarget::Web(_) => match index {
                0 => Some(DeploymentTarget::Web(WebRegion::UsEast(AvailabilityZone::default()))),
                1 => Some(DeploymentTarget::Web(WebRegion::Europe(AvailabilityZone::default()))),
                _ => None,
            },
            DeploymentTarget::Desktop(_) => match index {
                0 => Some(DeploymentTarget::Desktop(DesktopPlatform::MacOs)),
                1 => Some(DeploymentTarget::Desktop(DesktopPlatform::Linux)),
                2 => Some(DeploymentTarget::Desktop(DesktopPlatform::Windows)),
                _ => None,
            },
            DeploymentTarget::Docs => None,
        }
    }

    fn set_child_by_path(&self, path: &[usize]) -> (r: Option<Self>) {
        if path.len() == 0 {
            return None;
        }
        let (first, rest) = path.split_at(1);
        let mut updated = match self.set_child_by_index(first[0]) {
            Some(u) => u,
            None => return None,
        };
        if rest.len() > 0 {
            updated = match updated.inner_set_child_by_index(rest[0]) {
                Some(u) => u,
                None => return None,
            };
        }
        if rest.len() > 1 {
            return None;
        }
        Some(updated)
    }

    fn child_depth(&self) -> (r: usize) {
        match self {
            DeploymentTarget::Web(_) => 2,
            DeploymentTarget::Desktop(_) => 1,
            DeploymentTarget::Docs => 0,
        }
    }

    fn depth() -> (r: usize) {
        3
    }

    fn selection_path(&self) -> (r: InfiniteSelectPath) {
        let v = match self {
            DeploymentTarget::Web(WebRegion::UsEast(z)) => vec![0usize, 0usize, zone_index(*z)],
            DeploymentTarget::Web(WebRegion::Europe(z)) => vec![0usize, 1usize, zone_index(*z)],
            DeploymentTarget::Desktop(p) => vec![1usize, platform_index(*p)],
            DeploymentTarget::Docs => vec![2usize],
        };
        let r = InfiniteSelectPath::with_indices(v);
        assert(r@ =~= self.spec_selection_path());
        r
    }

    fn inner_child_variant_names(&self) -> (r: Vec<&'static str>) {
        match self {
            DeploymentTarget::Web(_) => {
                let r = vec!["Primary", "Disaster recovery"];
                assert(r@.map_values(|n: &'static str| n@) =~= self.spec_inner_child_variant_names());
                r
            },
            _ => {
                let r: Vec<&'static str> = Vec::new();
                assert(r@.map_values(|n: &'static str| n@) =~= self.spec_inner_child_variant_names());
                r
            },
        }
    }

    fn inner_set_child_by_index(&self, index: usize) -> (r: Option<Self>) {
        match self {
            DeploymentTarget::Web(region) => match AvailabilityZone::from_index(index) {
                Some(z) => Some(DeploymentTarget::Web(region.with_zone(z))),
                None => None,
            },
            _ => None,
        }
    }

    fn inner_has_inner(&self) -> (r: bool) {
        match self {
            DeploymentTarget::Web(_) => true,
            _ => false,
        }
    }

    fn type_label(&self) -> (r: &'static str)
        ensures
            r == "Target",
    {
        "Target"
    }

    fn type_description(&self) -> (r: &'static str)
        ensures
            r == "Choose the surface that the generated form should target.",
    {
        "Choose the surface that the generated form should target."
    }

    fn child_label_at_depth(&self, depth: usize) -> (r: Option<&'static str>)
        ensures
            r == (if depth == 0 {
                match self {
                    DeploymentTarget::Web(_) => Some("Region"),
                    DeploymentTarget::Desktop(_) => Some("Platform"),
                    DeploymentTarget::Docs => None,
                }
            } else if depth == 1 && self is Web {
                Some("Availability zone")
            } else {
                None
            }),
    {
        match depth {
            0 => match self {
                DeploymentTarget::Web(_) => Some("Region"),
                DeploymentTarget::Desktop(_) => Some("Platform"),
                DeploymentTarget::Docs => None,
            },
            1 => self.inner_child_label_at_depth(0),
            _ => None,
        }
    }

    fn child_description_at_depth(&self, depth: usize) -> (r: Option<&'static str>)
        ensures
            r == (if depth == 0 {
                match self {
                    DeploymentTarget::Web(_) => Some("Pick a deployment region for the web surface."),
                    DeploymentTarget::Desktop(_) => Some("Pick the desktop platform to generate for."),
                    DeploymentTarget::Docs => None,
                }
            } else if depth == 1 && self is Web {
                Some("Select the fallback zone within the chosen region.")
            } else {
                None
            }),
    {
        match depth {
            0 => match self {
                DeploymentTarget::Web(_) => Some("Pick a deployment region for the web surface."),
                DeploymentTarget::Desktop(_) => Some("Pick the desktop platform to generate for."),
                DeploymentTarget::Docs => None,
            },
            1 => self.inner_child_description_at_depth(0),
            _ => None,
        }
    }

    fn inner_child_label_at_depth(&self, depth: usize) -> (r: Option<&'static str>)
        ensures
            r == (if depth == 0 && self is Web {
                Some("Availability zone")
            } else {
                None
            }),
    {
        match (self, depth) {
            (DeploymentTarget::Web(_), 0) => Some("Availability zone"),
            _ => None,
        }
    }

    fn inner_child_description_at_depth(&self, depth: usize) -> (r: Option<&'static str>)
        ensures
            r == (if depth == 0 && self is Web {
                Some("Select the fallback zone within the chosen region.")
            } else {
                None
            }),
    {
        match (self, depth) {
            (DeploymentTarget::Web(_), 0) => Some(
                "Select the fallback zone within the chosen region.",
            ),
            _ => None,
        }
    }
}

fn zone_index(z: AvailabilityZone) -> (r: usize)
    ensures
        r == z.spec_index(),
{
    match z {
        AvailabilityZone::Primary => 0,
        AvailabilityZone::DisasterRecovery => 1,
    }
}

fn platform_index(p: DesktopPlatform) -> (r: usize)
    ensures
        r == p.spec_index(),
{
    match p {
        DesktopPlatform::MacOs => 0,
        DesktopPlatform::Linux => 1,
        DesktopPlatform::Windows => 2,
    }
}

/// Every selection path of the demo rebuilds the value it came from.
pub proof fn lemma_demo_path_round_trip(t: DeploymentTarget)
    ensures
        crate::infinite_select::build_from_path_spec::<DeploymentTarget>(
            t.spec_selection_path(),
        ) == Some(t),
{
    let p = t.spec_selection_path();
    assert(p.subrange(1, p.len() as int) =~= p.drop_first());
}

} // verus!
