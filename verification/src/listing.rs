//! The selection list that offers the USB endpoints of the host to the
//! user.

use vstd::prelude::*;
use vstd::string::StringExecFns;
use crate::endpoint::{EndpointDescriptor, EndpointView};
use crate::text::{contains_spec, lemma_contained_in_wrapped, lemma_middle_is_contained};

verus! {

/// The entry of the selection list that offers the endpoint called `name`.
pub open spec fn option_markup(name: Seq<char>) -> Seq<char> {
    "<option value=\""@ + name + "\">"@ + name + "</option>"@
}

/// The entries of the selection list for the USB endpoints among `ports`,
/// in the order of the listing.
pub open spec fn usb_options(ports: Seq<EndpointView>) -> Seq<char>
    decreases ports.len(),
{
    if ports.len() == 0 {
        Seq::empty()
    } else if ports.last().is_usb() {
        usb_options(ports.drop_last()) + option_markup(ports.last().name)
    } else {
        usb_options(ports.drop_last())
    }
}

/// Whether any endpoint among `ports` is attached over USB.
pub open spec fn has_usb(ports: Seq<EndpointView>) -> bool {
    exists|i: int| 0 <= i < ports.len() && (#[trigger] ports[i]).is_usb()
}

/// The entry that stands for an empty selection list.
pub open spec fn no_devices_markup() -> Seq<char> {
    "<option value=\"NULL\" disabled>No devices found</option>"@
}

/// The entry that stands for a host that could not list its endpoints.
pub open spec fn listing_failed_markup() -> Seq<char> {
    "<option value=\"NULL\" disabled>Could not list devices</option>"@
}

/// The selection list for the host's answer to a listing request: one entry
/// for each USB endpoint; the entry for an empty list where there is none;
/// the entry for a failed listing where the host could not list at all.
pub open spec fn listing_markup(listing: Option<Seq<EndpointView>>) -> Seq<char> {
    match listing {
        Some(ports) => if has_usb(ports) {
            usb_options(ports)
        } else {
            no_devices_markup()
        },
        None => listing_failed_markup(),
    }
}

/// Renders the selection list of USB endpoints from the host's answer to a
/// listing request, where `None` stands for a host that could not list its
/// endpoints.
pub fn get_available_serial_devices(listing: &Option<Vec<EndpointDescriptor>>) -> (markup: String)
    ensures
        markup@ == listing_markup(listing.deep_view()),
{
    match listing {
        None => String::from_str("<option value=\"NULL\" disabled>Could not list devices</option>"),
        Some(ports) => {
            let ghost listed = ports.deep_view();
            let mut markup = String::new();
            let mut usb_seen = false;
            let mut i: usize = 0;
            while i < ports.len()
                invariant
                    i <= ports.len(),
                    listed == ports.deep_view(),
                    markup@ == usb_options(listed.take(i as int)),
                    usb_seen == has_usb(listed.take(i as int)),
                decreases ports.len() - i,
            {
                let port = &ports[i];
                proof {
                    let before = listed.take(i as int);
                    let after = listed.take(i + 1);
                    assert(after.drop_last() == before);
                    assert(after.last() == port@);
                    if has_usb(before) {
                        let k = choose|k: int|
                            0 <= k < before.len() && (#[trigger] before[k]).is_usb();
                        assert(after[k].is_usb());
                    }
                    if has_usb(after) && !port@.is_usb() {
                        let k = choose|k: int|
                            0 <= k < after.len() && (#[trigger] after[k]).is_usb();
                        assert(before[k].is_usb());
                    }
                    if port@.is_usb() {
                        assert(after[i as int].is_usb());
                    }
                }
                if port.is_usb() {
                    usb_seen = true;
                    let ghost so_far = markup@;
                    markup.append("<option value=\"");
                    markup.append(port.name.as_str());
                    markup.append("\">");
                    markup.append(port.name.as_str());
                    markup.append("</option>");
                    assert(markup@ == so_far + option_markup(port@.name));
                }
                i += 1;
            }
            assert(listed.take(i as int) == listed);
            if usb_seen {
                markup
            } else {
                String::from_str("<option value=\"NULL\" disabled>No devices found</option>")
            }
        },
    }
}

/// Asked twice about the same endpoints, the host's listing is rendered to
/// the same selection list both times.
pub proof fn lemma_listing_is_repeatable(
    first: Option<Seq<EndpointView>>,
    second: Option<Seq<EndpointView>>,
)
    requires
        first == second,
    ensures
        listing_markup(first) == listing_markup(second),
{
}

/// The selection list is never empty and never ambiguous: without a USB
/// endpoint it is the entry that says so, and that entry differs from the
/// one for a failed listing.
pub proof fn lemma_empty_listing_is_explicit(ports: Seq<EndpointView>)
    requires
        !has_usb(ports),
    ensures
        listing_markup(Some(ports)) == no_devices_markup(),
        listing_markup(None) == listing_failed_markup(),
        no_devices_markup() != listing_failed_markup(),
{
    reveal_strlit("<option value=\"NULL\" disabled>No devices found</option>");
    reveal_strlit("<option value=\"NULL\" disabled>Could not list devices</option>");
    assert(no_devices_markup().len() != listing_failed_markup().len());
}

/// Every USB endpoint of a listing is offered in the selection list, under
/// its name.
pub proof fn lemma_usb_endpoints_are_offered(ports: Seq<EndpointView>, i: int)
    requires
        0 <= i < ports.len(),
        ports[i].is_usb(),
    ensures
        has_usb(ports),
        contains_spec(listing_markup(Some(ports)), option_markup(ports[i].name)),
    decreases ports.len(),
{
    let nothing = Seq::<char>::empty();
    let entry = option_markup(ports[i].name);
    let earlier = usb_options(ports.drop_last());
    if i == ports.len() - 1 {
        lemma_middle_is_contained(earlier, entry, nothing);
        assert(earlier + entry + nothing =~= usb_options(ports));
    } else {
        lemma_usb_endpoints_are_offered(ports.drop_last(), i);
        let last = if ports.last().is_usb() {
            option_markup(ports.last().name)
        } else {
            nothing
        };
        lemma_contained_in_wrapped(nothing, earlier, last, entry);
        assert(nothing + earlier + last =~= usb_options(ports));
    }
}

} // verus!
