//! The GPU device catalogue's inputs: `pci.ids` and the pinned sources.

use crate::text::{
    chars_of, extend_str, lines_seq, parse_radix, parse_unsigned, split_lines, split_once,
    split_once_spec, string_of, trim, trim_seq, trim_start, trim_start_seq,
};
use vstd::prelude::*;

verus! {

/// One `<vendor id>:<device id>` pair and the name `pci.ids` gives it.
#[derive(Debug, Clone, PartialEq, Eq)]
pub struct PciDevice {
    pub vendor_id: u32,
    pub device_id: u32,
    pub name: String,
}

/// A [`PciDevice`] taken by value: vendor id, device id, name.
pub open spec fn device_view(d: PciDevice) -> (u32, u32, Seq<char>) {
    (d.vendor_id, d.device_id, d.name@)
}

/// The hex number a (trimmed) field spells, if it fits a `u32`.
pub open spec fn hex_u32(s: Seq<char>) -> Option<u32> {
    match parse_unsigned(trim_seq(s), 16, u32::MAX as nat) {
        Some(n) => Some(n as u32),
        None => None,
    }
}

/// A blank line or a comment.
pub open spec fn pci_ignored(line: Seq<char>) -> bool {
    trim_seq(line).len() == 0 || (trim_start_seq(line).len() > 0 && trim_start_seq(line)[0]
        == '#')
}

/// The parser's state after a line: the current vendor (cleared by an
/// unindented heading that is not a hex vendor id, such as a class heading)
/// and the devices read so far. Only singly indented lines under a vendor are
/// devices; doubly indented lines are subsystem pairs and carry none.
pub open spec fn pci_step(st: (Option<u32>, Seq<(u32, u32, Seq<char>)>), line: Seq<char>) -> (
    Option<u32>,
    Seq<(u32, u32, Seq<char>)>,
) {
    if pci_ignored(line) {
        st
    } else if line.len() > 0 && line[0] == '\t' {
        let rest = line.drop_first();
        if rest.len() > 0 && rest[0] == '\t' {
            st
        } else {
            match st.0 {
                Some(v) => match split_once_spec(rest, "  "@) {
                    Some((id, name)) => match hex_u32(id) {
                        Some(d) => (st.0, st.1.push((v, d, trim_seq(name)))),
                        None => st,
                    },
                    None => st,
                },
                None => st,
            }
        }
    } else {
        (
            match split_once_spec(line, "  "@) {
                Some((id, _)) => hex_u32(id),
                None => None,
            },
            st.1,
        )
    }
}

/// The parser's state after a list of lines.
pub open spec fn pci_fold(lines: Seq<Seq<char>>) -> (Option<u32>, Seq<(u32, u32, Seq<char>)>)
    decreases lines.len(),
{
    if lines.len() == 0 {
        (None, Seq::empty())
    } else {
        pci_step(pci_fold(lines.drop_last()), lines.last())
    }
}

/// The devices a `pci.ids` text lists, in file order.
pub open spec fn pci_devices(raw: Seq<char>) -> Seq<(u32, u32, Seq<char>)> {
    pci_fold(lines_seq(raw)).1
}

fn hex_field(s: &[char]) -> (r: Option<u32>)
    ensures
        r == hex_u32(s@),
{
    let t = trim(s);
    match parse_radix(t.as_slice(), 16, 0xffff_ffff) {
        Some(n) => Some(n as u32),
        None => None,
    }
}

/// Parse the `pci.ids` format: vendor headings, singly indented device lines
/// under them, doubly indented subsystem lines (skipped), and the trailing
/// device-class sections, whose headings clear the current vendor so that
/// their subclass lines are not taken for devices.
pub fn parse_pci_ids(raw: &str) -> (r: Vec<PciDevice>)
    ensures
        r@.map_values(|d: PciDevice| device_view(d)) == pci_devices(raw@),
{
    let cs = chars_of(raw);
    let lines = split_lines(cs.as_slice());
    let ghost all = lines_seq(raw@);
    let two = chars_of("  ");
    let mut out: Vec<PciDevice> = Vec::new();
    let mut vendor: Option<u32> = None;
    let mut i: usize = 0;
    proof {
        assert(all.subrange(0, 0) =~= Seq::<Seq<char>>::empty());
        assert(out@.map_values(|d: PciDevice| device_view(d)) =~= Seq::<(u32, u32, Seq<char>)>::empty());
    }
    while i < lines.len()
        invariant
            i <= lines@.len(),
            lines@.len() == all.len(),
            two@ == "  "@,
            forall|k: int| 0 <= k < lines@.len() ==> (#[trigger] lines@[k])@ == all[k],
            (vendor, out@.map_values(|d: PciDevice| device_view(d))) == pci_fold(
                all.subrange(0, i as int),
            ),
        decreases lines@.len() - i,
    {
        let line = lines[i].as_slice();
        proof {
            let t = all.subrange(0, i + 1);
            assert(t.drop_last() =~= all.subrange(0, i as int));
            assert(t.last() == all[i as int]);
        }
        let ts = trim_start(line);
        let ignored = trim(line).len() == 0 || (ts.len() > 0 && ts[0] == '#');
        if !ignored {
            if line.len() > 0 && line[0] == '\t' {
                let rest = crate::text::slice_chars(line, 1, line.len());
                proof {
                    assert(rest@ =~= line@.drop_first());
                }
                if !(rest.len() > 0 && rest[0] == '\t') {
                    if let Some(v) = vendor {
                        if let Some((id, name)) = split_once(rest.as_slice(), two.as_slice()) {
                            if let Some(d) = hex_field(id.as_slice()) {
                                let nm = trim(name.as_slice());
                                let dev = PciDevice {
                                    vendor_id: v,
                                    device_id: d,
                                    name: string_of(nm.as_slice()),
                                };
                                let ghost before = out@;
                                out.push(dev);
                                proof {
                                    assert(out@.map_values(|d: PciDevice| device_view(d))
                                        =~= before.map_values(|d: PciDevice| device_view(d)).push(
                                        device_view(dev),
                                    ));
                                }
                            }
                        }
                    }
                }
            } else {
                vendor = match split_once(line, two.as_slice()) {
                    Some((id, _)) => hex_field(id.as_slice()),
                    None => None,
                };
            }
        }
        i = i + 1;
    }
    proof {
        assert(all.subrange(0, all.len() as int) =~= all);
    }
    out
}

/// Commit of the read-only git mirror of the PCI ID Database the catalogue is
/// built from.
pub const PCI_IDS_COMMIT: &'static str = "e91752832f366923b29d518f4d5e58abd0ccb917";

/// Commit of the fingerprint corpus whose `videoCard` node carries
/// driver-reported renderer strings.
pub const CORPUS_COMMIT: &'static str = "4d97621b824fceac5a1e6ebbbdf3d616f6fabca4";

/// Raw URL of the pinned `pci.ids`.
pub open spec fn pci_ids_url_spec() -> Seq<char> {
    "https://raw.githubusercontent.com/pciutils/pciids/"@ + PCI_IDS_COMMIT@ + "/pci.ids"@
}

/// Raw URL of the pinned `pci.ids`.
pub fn pci_ids_url() -> (r: String)
    ensures
        r@ == pci_ids_url_spec(),
{
    let mut v: Vec<char> = Vec::new();
    extend_str(&mut v, "https://raw.githubusercontent.com/pciutils/pciids/");
    extend_str(&mut v, PCI_IDS_COMMIT);
    extend_str(&mut v, "/pci.ids");
    string_of(v.as_slice())
}

/// Raw URL of the pinned fingerprint network definition.
pub open spec fn corpus_url_spec() -> Seq<char> {
    "https://raw.githubusercontent.com/apify/fingerprint-suite/"@ + CORPUS_COMMIT@
        + "/packages/fingerprint-generator/src/data_files/fingerprint-network-definition.zip"@
}

/// Raw URL of the pinned fingerprint network definition.
pub fn corpus_url() -> (r: String)
    ensures
        r@ == corpus_url_spec(),
{
    let mut v: Vec<char> = Vec::new();
    extend_str(&mut v, "https://raw.githubusercontent.com/apify/fingerprint-suite/");
    extend_str(&mut v, CORPUS_COMMIT);
    extend_str(
        &mut v,
        "/packages/fingerprint-generator/src/data_files/fingerprint-network-definition.zip",
    );
    string_of(v.as_slice())
}

} // verus!
