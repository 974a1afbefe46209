//! Serial endpoints: what the host knows of each, and how one is picked by
//! its name.

use vstd::prelude::*;
use crate::text::same_text;

verus! {

/// What USB says of a device.
#[derive(Debug, PartialEq, Eq)]
pub struct UsbMetadata {
    pub vendor_id: u16,
    pub product_id: u16,
    pub serial_number: Option<String>,
}

/// How an endpoint is attached to the host.
#[derive(Debug, PartialEq, Eq)]
pub enum PortKind {
    /// Over USB, with the device's USB metadata.
    Usb(UsbMetadata),
    /// In any other way: Bluetooth, PCI, a virtual port.
    Other,
}

/// One serial endpoint that the host has listed.
#[derive(Debug, PartialEq, Eq)]
pub struct EndpointDescriptor {
    /// The name under which the operating system opens the endpoint.
    pub name: String,
    pub kind: PortKind,
}

/// Why no endpoint could be handed out for a name.
#[derive(Clone, Copy, Debug, PartialEq, Eq, Structural)]
pub enum EndpointResolutionFailure {
    /// The host lists no endpoint of that name.
    NoSuchEndpoint,
    /// The endpoint of that name is not attached over USB.
    NotUsb,
    /// The host could not list its endpoints.
    EnumerationFailed,
}

/// `UsbMetadata` as a mathematical value.
pub struct UsbMetadataView {
    pub vendor_id: u16,
    pub product_id: u16,
    pub serial_number: Option<Seq<char>>,
}

/// `PortKind` as a mathematical value.
pub enum PortKindView {
    Usb(UsbMetadataView),
    Other,
}

/// `EndpointDescriptor` as a mathematical value.
pub struct EndpointView {
    pub name: Seq<char>,
    pub kind: PortKindView,
}

impl View for UsbMetadata {
    type V = UsbMetadataView;

    open spec fn view(&self) -> UsbMetadataView {
        UsbMetadataView {
            vendor_id: self.vendor_id,
            product_id: self.product_id,
            serial_number: match self.serial_number {
                Some(text) => Some(text@),
                None => None,
            },
        }
    }
}

impl View for PortKind {
    type V = PortKindView;

    open spec fn view(&self) -> PortKindView {
        match self {
            PortKind::Usb(usb) => PortKindView::Usb(usb@),
            PortKind::Other => PortKindView::Other,
        }
    }
}

impl View for EndpointDescriptor {
    type V = EndpointView;

    open spec fn view(&self) -> EndpointView {
        EndpointView { name: self.name@, kind: self.kind@ }
    }
}

impl DeepView for EndpointDescriptor {
    type V = EndpointView;

    open spec fn deep_view(&self) -> EndpointView {
        self@
    }
}

impl Clone for UsbMetadata {
    fn clone(&self) -> (copy: Self)
        ensures
            copy@ == self@,
    {
        let serial_number = match &self.serial_number {
            Some(text) => Some(text.clone()),
            None => None,
        };
        UsbMetadata { vendor_id: self.vendor_id, product_id: self.product_id, serial_number }
    }
}

impl Clone for PortKind {
    fn clone(&self) -> (copy: Self)
        ensures
            copy@ == self@,
    {
        match self {
            PortKind::Usb(usb) => PortKind::Usb(usb.clone()),
            PortKind::Other => PortKind::Other,
        }
    }
}

impl Clone for EndpointDescriptor {
    fn clone(&self) -> (copy: Self)
        ensures
            copy@ == self@,
    {
        EndpointDescriptor { name: self.name.clone(), kind: self.kind.clone() }
    }
}

impl EndpointView {
    /// Whether the endpoint is attached over USB.
    pub open spec fn is_usb(self) -> bool {
        self.kind is Usb
    }
}

impl EndpointDescriptor {
    /// Whether the endpoint is attached over USB.
    pub fn is_usb(&self) -> (usb: bool)
        ensures
            usb == self@.is_usb(),
    {
        match &self.kind {
            PortKind::Usb(_) => true,
            PortKind::Other => false,
        }
    }
}

/// `ports[i]` is called `name`, and no endpoint before it is.
pub open spec fn is_first_named(ports: Seq<EndpointView>, name: Seq<char>, i: int) -> bool {
    &&& 0 <= i < ports.len()
    &&& ports[i].name == name
    &&& forall|j: int| 0 <= j < i ==> (#[trigger] ports[j]).name != name
}

/// `ports[i]` is called `name` and is attached over USB.
pub open spec fn is_usb_named(ports: Seq<EndpointView>, name: Seq<char>, i: int) -> bool {
    &&& 0 <= i < ports.len()
    &&& ports[i].name == name
    &&& ports[i].is_usb()
}

/// One endpoint of `ports`, and no second one, is called `name` and attached
/// over USB.
pub open spec fn exactly_one_usb_named(ports: Seq<EndpointView>, name: Seq<char>) -> bool {
    exists|i: int|
        {
            &&& #[trigger] is_usb_named(ports, name, i)
            &&& forall|j: int| #[trigger] is_usb_named(ports, name, j) ==> j == i
        }
}

/// The endpoint that a listing hands out for a name: the first one of that
/// name, if it is attached over USB.
pub open spec fn resolve_spec(ports: Seq<EndpointView>, name: Seq<char>) -> Result<
    EndpointView,
    EndpointResolutionFailure,
> {
    if exists|i: int| is_first_named(ports, name, i) {
        let first = choose|i: int| is_first_named(ports, name, i);
        if ports[first].is_usb() {
            Ok(ports[first])
        } else {
            Err(EndpointResolutionFailure::NotUsb)
        }
    } else {
        Err(EndpointResolutionFailure::NoSuchEndpoint)
    }
}

/// What the host's answer to a listing request hands out for a name; `None`
/// stands for a host that could not list its endpoints.
pub open spec fn resolve_listing_spec(
    listing: Option<Seq<EndpointView>>,
    name: Seq<char>,
) -> Result<EndpointView, EndpointResolutionFailure> {
    match listing {
        Some(ports) => resolve_spec(ports, name),
        None => Err(EndpointResolutionFailure::EnumerationFailed),
    }
}

/// The outcome of a resolution as a mathematical value.
pub open spec fn resolution_view(
    found: Result<EndpointDescriptor, EndpointResolutionFailure>,
) -> Result<EndpointView, EndpointResolutionFailure> {
    match found {
        Ok(endpoint) => Ok(endpoint@),
        Err(failure) => Err(failure),
    }
}

/// A listing has at most one first endpoint of a name.
pub proof fn lemma_first_named_is_unique(ports: Seq<EndpointView>, name: Seq<char>, i: int, j: int)
    requires
        is_first_named(ports, name, i),
        is_first_named(ports, name, j),
    ensures
        i == j,
{
    if i < j {
        assert(ports[i].name != name);
    } else if j < i {
        assert(ports[j].name != name);
    }
}

/// Picks from `ports` the endpoint called `name`: the first of that name
/// decides. It is handed out if it is attached over USB.
pub fn find_endpoint(ports: &Vec<EndpointDescriptor>, name: &str) -> (found: Result<
    EndpointDescriptor,
    EndpointResolutionFailure,
>)
    ensures
        resolution_view(found) == resolve_spec(ports.deep_view(), name@),
        found is Err ==> found->Err_0 != EndpointResolutionFailure::EnumerationFailed,
{
    let ghost listed = ports.deep_view();
    let mut i: usize = 0;
    while i < ports.len()
        invariant
            i <= ports.len(),
            listed == ports.deep_view(),
            forall|j: int| 0 <= j < i ==> (#[trigger] listed[j]).name != name@,
        decreases ports.len() - i,
    {
        let candidate = &ports[i];
        assert(listed[i as int] == candidate@);
        if same_text(candidate.name.as_str(), name) {
            proof {
                assert(is_first_named(listed, name@, i as int));
                let first = choose|k: int| is_first_named(listed, name@, k);
                lemma_first_named_is_unique(listed, name@, first, i as int);
            }
            if candidate.is_usb() {
                return Ok(candidate.clone());
            } else {
                return Err(EndpointResolutionFailure::NotUsb);
            }
        }
        i += 1;
    }
    proof {
        assert forall|k: int| !is_first_named(listed, name@, k) by {
            if 0 <= k < listed.len() {
                assert(listed[k].name != name@);
            }
        }
    }
    Err(EndpointResolutionFailure::NoSuchEndpoint)
}

/// Resolves `name` against the host's answer to a listing request, where
/// `None` stands for a host that could not list its endpoints.
pub fn resolve_endpoint(listing: &Option<Vec<EndpointDescriptor>>, name: &str) -> (found: Result<
    EndpointDescriptor,
    EndpointResolutionFailure,
>)
    ensures
        resolution_view(found) == resolve_listing_spec(listing.deep_view(), name@),
        found == Err::<EndpointDescriptor, _>(EndpointResolutionFailure::EnumerationFailed)
            <==> listing is None,
{
    match listing {
        Some(ports) => find_endpoint(ports, name),
        None => Err(EndpointResolutionFailure::EnumerationFailed),
    }
}

/// An endpoint that is handed out stands in the listing, has the name that
/// was asked for and is attached over USB; where none of that name is listed
/// the answer is `NoSuchEndpoint`, and where the first of that name is not
/// attached over USB it is `NotUsb`. Nothing else is ever answered.
pub proof fn lemma_resolution_is_justified(ports: Seq<EndpointView>, name: Seq<char>)
    ensures
        match resolve_spec(ports, name) {
            Ok(endpoint) => exists|i: int|
                is_first_named(ports, name, i) && #[trigger] is_usb_named(ports, name, i)
                    && ports[i] == endpoint,
            Err(EndpointResolutionFailure::NoSuchEndpoint) => forall|i: int|
                0 <= i < ports.len() ==> (#[trigger] ports[i]).name != name,
            Err(EndpointResolutionFailure::NotUsb) => exists|i: int|
                #[trigger] is_first_named(ports, name, i) && !ports[i].is_usb(),
            Err(EndpointResolutionFailure::EnumerationFailed) => false,
        },
{
    if exists|i: int| is_first_named(ports, name, i) {
        let first = choose|i: int| is_first_named(ports, name, i);
        if ports[first].is_usb() {
            assert(is_usb_named(ports, name, first));
        }
    } else {
        assert forall|i: int| 0 <= i < ports.len() implies (#[trigger] ports[i]).name != name by {
            lemma_no_first_means_none(ports, name, i);
        }
    }
}

/// Where no endpoint is the first of a name, none has that name.
proof fn lemma_no_first_means_none(ports: Seq<EndpointView>, name: Seq<char>, i: int)
    requires
        forall|k: int| !is_first_named(ports, name, k),
        0 <= i < ports.len(),
    ensures
        ports[i].name != name,
    decreases i,
{
    if ports[i].name == name {
        if forall|j: int| 0 <= j < i ==> (#[trigger] ports[j]).name != name {
            assert(is_first_named(ports, name, i));
        } else {
            let j = choose|j: int| 0 <= j < i && (#[trigger] ports[j]).name == name;
            lemma_no_first_means_none(ports, name, j);
        }
    }
}

/// The first endpoint of the requested name speaks for all of that name: if
/// it is attached over USB, no other USB endpoint has its name, and if it is
/// not, the listing does not hold exactly one USB endpoint of that name
/// behind it.
pub open spec fn first_speaks_for_all(ports: Seq<EndpointView>, name: Seq<char>) -> bool {
    forall|i: int| #[trigger]
        is_first_named(ports, name, i) ==> {
            &&& ports[i].is_usb() ==> forall|j: int|
                #[trigger] is_usb_named(ports, name, j) ==> j == i
            &&& !ports[i].is_usb() ==> !exactly_one_usb_named(ports, name)
        }
}

/// No two endpoints of the listing have the same name.
pub open spec fn names_are_distinct(ports: Seq<EndpointView>) -> bool {
    forall|i: int, j: int|
        0 <= i < j < ports.len() ==> (#[trigger] ports[i]).name != (#[trigger] ports[j]).name
}

/// Exactly one descriptor is handed out where exactly one USB endpoint has
/// the requested name, and `NoSuchEndpoint` or `NotUsb` is answered
/// otherwise. This holds of every listing in which the first endpoint of
/// the requested name speaks for all of that name; it cannot hold where
/// that endpoint stands before a USB endpoint of its name that would change
/// the count.
pub proof fn lemma_unique_usb_match_resolves(ports: Seq<EndpointView>, name: Seq<char>)
    requires
        first_speaks_for_all(ports, name),
    ensures
        exactly_one_usb_named(ports, name) ==> {
            &&& resolve_spec(ports, name) matches Ok(endpoint)
            &&& endpoint.name == name
            &&& endpoint.is_usb()
            &&& exists|i: int| #[trigger] is_usb_named(ports, name, i) && ports[i] == endpoint
        },
        !exactly_one_usb_named(ports, name) ==> {
            ||| resolve_spec(ports, name) == Err::<EndpointView, _>(
                EndpointResolutionFailure::NoSuchEndpoint,
            )
            ||| resolve_spec(ports, name) == Err::<EndpointView, _>(
                EndpointResolutionFailure::NotUsb,
            )
        },
{
    lemma_resolution_is_justified(ports, name);
    if exists|i: int| is_first_named(ports, name, i) {
        let first = choose|i: int| is_first_named(ports, name, i);
        assert(is_first_named(ports, name, first));
    } else {
        if exactly_one_usb_named(ports, name) {
            let i = choose|i: int| #[trigger] is_usb_named(ports, name, i);
            lemma_no_first_means_none(ports, name, i);
        }
    }
}

/// In a listing without repeated names, the first endpoint of a name speaks
/// for all of that name, so the answer for a name is the only USB endpoint
/// of that name, or a failure where there is none.
pub proof fn lemma_distinct_names_resolve(ports: Seq<EndpointView>, name: Seq<char>)
    requires
        names_are_distinct(ports),
    ensures
        first_speaks_for_all(ports, name),
{
    assert forall|i: int| #[trigger] is_first_named(ports, name, i) implies {
        &&& ports[i].is_usb() ==> forall|j: int| #[trigger] is_usb_named(ports, name, j) ==> j == i
        &&& !ports[i].is_usb() ==> !exactly_one_usb_named(ports, name)
    } by {
        if ports[i].is_usb() {
            assert forall|j: int| #[trigger] is_usb_named(ports, name, j) implies j == i by {
                if j < i {
                    assert(ports[j].name != ports[i].name);
                } else if i < j {
                    assert(ports[i].name != ports[j].name);
                }
            }
        } else {
            if exactly_one_usb_named(ports, name) {
                let k = choose|k: int| #[trigger] is_usb_named(ports, name, k);
                if k < i {
                    assert(ports[k].name != ports[i].name);
                } else if i < k {
                    assert(ports[i].name != ports[k].name);
                }
            }
        }
    }
}

} // verus!
