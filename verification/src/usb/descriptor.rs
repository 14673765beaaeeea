//! USB descriptor building: endpoint addressing, the standard device
//! descriptor, and the composite configuration descriptor with one HID
//! interface per declared instance and an optional mass-storage interface.

use vstd::prelude::*;

use crate::usb::{HidInstance, HidInstanceView, UsbError, views_of};

verus! {

/// Size of the fixed working buffer the configuration descriptor is built
/// in; a configuration that does not fit is a fatal configuration error.
pub const CONFIG_BUFFER_SIZE: usize = 128;

/// Transfer direction of an endpoint, encoded in bit 7 of its address.
pub enum Direction {
    Out,
    In,
}

/// The direction bit of an endpoint address: IN endpoints carry bit 7.
pub open spec fn direction_bit(direction: Direction) -> u8 {
    match direction {
        Direction::Out => 0x00,
        Direction::In => 0x80,
    }
}

/// An endpoint address: the direction bit in bit 7, the endpoint number in
/// bits 3..0. Endpoint numbers above 15 do not fit the address layout.
pub fn endpoint_address(number: u8, direction: Direction) -> (r: u8)
    requires
        number < 16,
    ensures
        r == direction_bit(direction) + number,
{
    match direction {
        Direction::Out => number,
        Direction::In => {
            assert(0x80u8 | number == 0x80 + number) by (bit_vector)
                requires
                    number < 16,
            ;
            0x80 | number
        },
    }
}

/// The standard 18-byte USB device descriptor, held as plain values. The
/// vendor stack consumes it in its own binary form; the conversion stays at
/// the unverified edge.
#[derive(Clone, Copy, Debug, PartialEq, Eq, Structural)]
pub struct DeviceDescriptor {
    pub b_length: u8,
    pub b_descriptor_type: u8,
    pub bcd_usb: u16,
    pub b_device_class: u8,
    pub b_device_sub_class: u8,
    pub b_device_protocol: u8,
    pub b_max_packet_size0: u8,
    pub id_vendor: u16,
    pub id_product: u16,
    pub bcd_device: u16,
    pub i_manufacturer: u8,
    pub i_product: u8,
    pub i_serial_number: u8,
    pub b_num_configurations: u8,
}

/// The device descriptor of this composite device: USB 2.0, the
/// miscellaneous class with the interface-association protocol (so the host
/// binds each interface separately), a 64-byte control endpoint, a
/// vendor/product id pair from the shared V-USB range, and string indices
/// for manufacturer (1), product (2) and serial number (3).
pub open spec fn device_descriptor_spec() -> DeviceDescriptor {
    DeviceDescriptor {
        b_length: 18,
        b_descriptor_type: 1,
        bcd_usb: 0x0200,
        b_device_class: 0xef,
        b_device_sub_class: 2,
        b_device_protocol: 1,
        b_max_packet_size0: 64,
        id_vendor: 0x16c0,
        id_product: 0x27db,
        bcd_device: 0x100,
        i_manufacturer: 0x01,
        i_product: 0x02,
        i_serial_number: 0x03,
        b_num_configurations: 0x01,
    }
}

/// The fixed device descriptor handed to the vendor stack at install.
pub fn device_descriptor() -> (r: DeviceDescriptor)
    ensures
        r == device_descriptor_spec(),
{
    DeviceDescriptor {
        b_length: 18,
        b_descriptor_type: 1,
        bcd_usb: 0x0200,
        b_device_class: 0xef,
        b_device_sub_class: 2,
        b_device_protocol: 1,
        b_max_packet_size0: 64,
        id_vendor: 0x16c0,
        id_product: 0x27db,
        bcd_device: 0x100,
        i_manufacturer: 0x01,
        i_product: 0x02,
        i_serial_number: 0x03,
        b_num_configurations: 0x01,
    }
}

/// A 16-bit value in little-endian byte order.
pub open spec fn u16_le(v: u16) -> Seq<u8> {
    seq![(v % 256) as u8, (v / 256) as u8]
}

/// The 9-byte configuration descriptor header: length, CONFIGURATION type,
/// total length, interface count, configuration value 1, no string, bus
/// powered with remote wakeup, 200 mA.
pub open spec fn config_header(total_len: u16, num_interfaces: u8) -> Seq<u8> {
    seq![9u8, 2u8] + u16_le(total_len) + seq![num_interfaces, 1u8, 0u8, 0xa0u8, 100u8]
}

/// A 9-byte interface descriptor for one HID interface: one endpoint, HID
/// class, string index 4.
pub open spec fn hid_interface_desc(interface_num: u8) -> Seq<u8> {
    seq![9u8, 4u8, interface_num, 0u8, 1u8, 3u8, 0u8, 0u8, 4u8]
}

/// A 9-byte HID descriptor: HID v1.11, one report descriptor of the given
/// length.
pub open spec fn hid_desc(report_desc_len: u16) -> Seq<u8> {
    seq![9u8, 0x21u8] + u16_le(0x0111) + seq![0u8, 1u8, 0x22u8] + u16_le(report_desc_len)
}

/// A 7-byte IN interrupt endpoint descriptor for a HID interface: 16-byte
/// packets, 10 ms interval.
pub open spec fn hid_endpoint_desc(endpoint_num: u8) -> Seq<u8> {
    seq![7u8, 5u8, (0x80 + endpoint_num) as u8, 3u8] + u16_le(16) + seq![10u8]
}

/// The 25-byte section emitted for HID interface number `interface_num`:
/// interface descriptor, HID descriptor, one IN endpoint numbered
/// `interface_num + 1`.
pub open spec fn hid_section(interface_num: u8, report_desc_len: u16) -> Seq<u8> {
    hid_interface_desc(interface_num) + hid_desc(report_desc_len) + hid_endpoint_desc(
        (interface_num + 1) as u8,
    )
}

/// The 23-byte mass-storage section: an interface descriptor (MSC class,
/// SCSI subclass, bulk-only transport, string index 5) and one OUT plus one
/// IN bulk endpoint with 64-byte packets, both numbered `interface_num + 1`.
pub open spec fn msc_section(interface_num: u8) -> Seq<u8> {
    seq![9u8, 4u8, interface_num, 0u8, 2u8, 8u8, 6u8, 0x50u8, 5u8] + (seq![
        7u8,
        5u8,
        (interface_num + 1) as u8,
        2u8,
    ] + u16_le(64) + seq![0u8]) + (seq![7u8, 5u8, (0x80 + interface_num + 1) as u8, 2u8] + u16_le(
        64,
    ) + seq![0u8])
}

/// The HID sections of the first `k` interface instances, in declaration
/// order, interface numbers assigned from 0 upward.
pub open spec fn hid_sections(instances: Seq<HidInstanceView>, k: int) -> Seq<u8>
    decreases k,
{
    if k <= 0 {
        Seq::<u8>::empty()
    } else {
        hid_sections(instances, k - 1) + hid_section(
            (k - 1) as u8,
            instances[k - 1].descriptor.len() as u16,
        )
    }
}

/// The exact length of the built configuration descriptor: 9 header bytes,
/// 25 per HID instance, 23 more when mass storage is included.
pub open spec fn config_total_len(n: int, include_msc: bool) -> int {
    9 + 25 * n + if include_msc {
        23int
    } else {
        0int
    }
}

/// The exact bytes of the configuration descriptor for the given interface
/// instances, with the true total length already in the header.
pub open spec fn config_bytes(instances: Seq<HidInstanceView>, include_msc: bool) -> Seq<u8> {
    config_header(
        config_total_len(instances.len() as int, include_msc) as u16,
        (instances.len() + if include_msc {
            1int
        } else {
            0int
        }) as u8,
    ) + hid_sections(instances, instances.len() as int) + if include_msc {
        msc_section(instances.len() as u8)
    } else {
        Seq::<u8>::empty()
    }
}

/// Relies on `bytes::BufMut::put_u8` for `Vec<u8>`: appends the byte to the
/// buffer.
#[verifier::external_body]
fn put_u8(buf: &mut Vec<u8>, v: u8)
    ensures
        final(buf)@ == old(buf)@.push(v),
{
    bytes::BufMut::put_u8(buf, v);
}

/// Relies on `bytes::BufMut::put_u16_le` for `Vec<u8>`: appends the two
/// bytes of the value, least significant first.
#[verifier::external_body]
fn put_u16_le(buf: &mut Vec<u8>, v: u16)
    ensures
        final(buf)@ == old(buf)@.push((v % 256) as u8).push((v / 256) as u8),
{
    bytes::BufMut::put_u16_le(buf, v);
}

/// The HID sections of `k` instances take exactly 25 bytes each.
pub proof fn lemma_hid_sections_len(instances: Seq<HidInstanceView>, k: int)
    requires
        0 <= k,
    ensures
        hid_sections(instances, k).len() == 25 * k,
    decreases k,
{
    if k > 0 {
        lemma_hid_sections_len(instances, k - 1);
    }
}

/// Law: the declared total-length field of the configuration descriptor —
/// the 16-bit little-endian value at offset 2 — always equals the buffer's
/// actual byte length, for any number of HID instances whose total fits
/// the field, with and without mass storage.
pub proof fn lemma_total_length_field(instances: Seq<HidInstanceView>, include_msc: bool)
    requires
        config_total_len(instances.len() as int, include_msc) <= u16::MAX,
    ensures
        ({
            let d = config_bytes(instances, include_msc);
            d.len() == config_total_len(instances.len() as int, include_msc) && d[2] + 256 * d[3]
                == d.len()
        }),
{
    lemma_hid_sections_len(instances, instances.len() as int);
}

/// Within the HID sections, section `i` stands at byte offset `25 * i` and
/// is exactly the section of interface number `i`.
pub proof fn lemma_hid_sections_at(instances: Seq<HidInstanceView>, k: int, i: int)
    requires
        0 <= i < k,
    ensures
        hid_sections(instances, k).subrange(25 * i, 25 * (i + 1)) == hid_section(
            i as u8,
            instances[i].descriptor.len() as u16,
        ),
    decreases k,
{
    lemma_hid_sections_len(instances, k - 1);
    let prefix = hid_sections(instances, k - 1);
    let last = hid_section((k - 1) as u8, instances[k - 1].descriptor.len() as u16);
    if i == k - 1 {
        assert(prefix.len() == 25 * i);
        assert((prefix + last).subrange(25 * i, 25 * (i + 1)) =~= last);
    } else {
        lemma_hid_sections_at(instances, k - 1, i);
        assert((prefix + last).subrange(25 * i, 25 * (i + 1)) =~= prefix.subrange(
            25 * i,
            25 * (i + 1),
        ));
    }
}

/// Interface numbers in the built configuration descriptor are contiguous
/// starting at 0, in declaration order, with the optional mass-storage
/// interface numbered after the HID ones; and endpoint addresses are unique
/// per direction: HID interface `i` owns IN endpoint address `0x80 + i + 1`,
/// and the mass-storage interface owns the one OUT endpoint and the last IN
/// endpoint, numbered `n + 1`.
pub proof fn lemma_descriptor_layout(instances: Seq<HidInstanceView>, include_msc: bool)
    requires
        instances.len() <= 14,
    ensures
        ({
            let d = config_bytes(instances, include_msc);
            let n = instances.len() as int;
            // bInterfaceNumber of HID section i is i
            &&& forall|i: int| 0 <= i < n ==> #[trigger] d[9 + 25 * i + 2] == i as u8
            // bEndpointAddress of HID section i is IN, number i + 1
            &&& forall|i: int| 0 <= i < n ==> #[trigger] d[9 + 25 * i + 20] == (0x81 + i) as u8
            // the mass-storage interface continues the numbering with n
            &&& include_msc ==> d[9 + 25 * n + 2] == n as u8
            // its OUT endpoint has number n + 1, its IN endpoint address 0x80 + n + 1
            &&& include_msc ==> d[9 + 25 * n + 11] == (n + 1) as u8
            &&& include_msc ==> d[9 + 25 * n + 18] == (0x81 + n) as u8
            // IN endpoint addresses are pairwise distinct
            &&& forall|i: int, j: int|
                #![trigger d[9 + 25 * i + 20], d[9 + 25 * j + 20]]
                0 <= i < j < n ==> d[9 + 25 * i + 20] != d[9 + 25 * j + 20]
            &&& include_msc ==> forall|i: int|
                0 <= i < n ==> #[trigger] d[9 + 25 * i + 20] != d[9 + 25 * n + 18]
        }),
{
    let d = config_bytes(instances, include_msc);
    let n = instances.len() as int;
    let s = hid_sections(instances, n);
    lemma_hid_sections_len(instances, n);
    assert forall|i: int| 0 <= i < n implies #[trigger] d[9 + 25 * i + 2] == i as u8 by {
        lemma_hid_sections_at(instances, n, i);
        let sec = hid_section(i as u8, instances[i].descriptor.len() as u16);
        assert(s.subrange(25 * i, 25 * (i + 1))[2] == s[25 * i + 2]);
        assert(d[9 + 25 * i + 2] == s[25 * i + 2]);
        assert(sec[2] == i as u8);
    }
    assert forall|i: int| 0 <= i < n implies #[trigger] d[9 + 25 * i + 20] == (0x81 + i) as u8 by {
        lemma_hid_sections_at(instances, n, i);
        let sec = hid_section(i as u8, instances[i].descriptor.len() as u16);
        assert(s.subrange(25 * i, 25 * (i + 1))[20] == s[25 * i + 20]);
        assert(d[9 + 25 * i + 20] == s[25 * i + 20]);
        assert(sec[20] == (0x81 + i) as u8);
    }
    if include_msc {
        let m = msc_section(instances.len() as u8);
        assert(d[9 + 25 * n + 2] == m[2]);
        assert(d[9 + 25 * n + 11] == m[11]);
        assert(d[9 + 25 * n + 18] == m[18]);
        assert(m[2] == n as u8);
        assert(m[11] == (n + 1) as u8);
        assert(m[18] == (0x81 + n) as u8);
    }
    assert forall|i: int, j: int|
        #![trigger d[9 + 25 * i + 20], d[9 + 25 * j + 20]]
        0 <= i < j < n implies d[9 + 25 * i + 20] != d[9 + 25 * j + 20] by {
        assert(d[9 + 25 * i + 20] == (0x81 + i) as u8);
        assert(d[9 + 25 * j + 20] == (0x81 + j) as u8);
    }
    if include_msc {
        assert forall|i: int| 0 <= i < n implies #[trigger] d[9 + 25 * i + 20] != d[9 + 25 * n
            + 18] by {
            assert(d[9 + 25 * i + 20] == (0x81 + i) as u8);
        }
    }
}

/// Write the 9-byte configuration header with a placeholder total length.
fn write_header(buf: &mut Vec<u8>, num_interfaces: u8)
    ensures
        final(buf)@ == old(buf)@ + config_header(0, num_interfaces),
{
    put_u8(buf, 9);
    put_u8(buf, 2);
    put_u16_le(buf, 0);
    put_u8(buf, num_interfaces);
    put_u8(buf, 1);
    put_u8(buf, 0);
    put_u8(buf, 0xa0);
    put_u8(buf, 100);
    assert(buf@ =~= old(buf)@ + config_header(0, num_interfaces));
}

/// Write one HID instance's 25-byte section: interface descriptor, HID
/// descriptor, IN interrupt endpoint.
fn write_hid_section(buf: &mut Vec<u8>, interface_num: u8, desc_len: u16)
    requires
        interface_num < 15,
    ensures
        final(buf)@ == old(buf)@ + hid_section(interface_num, desc_len),
{
    // HID INTERFACE DESCRIPTOR
    put_u8(buf, 9);
    put_u8(buf, 4);
    put_u8(buf, interface_num);
    put_u8(buf, 0);
    put_u8(buf, 1);
    put_u8(buf, 3);
    put_u8(buf, 0);
    put_u8(buf, 0);
    put_u8(buf, 4);

    // HID DESCRIPTOR
    put_u8(buf, 9);
    put_u8(buf, 0x21);
    put_u16_le(buf, 0x0111);
    put_u8(buf, 0);
    put_u8(buf, 1);
    put_u8(buf, 0x22);
    put_u16_le(buf, desc_len);

    // ENDPOINT DESCRIPTOR
    put_u8(buf, 7);
    put_u8(buf, 5);
    put_u8(buf, endpoint_address(interface_num + 1, Direction::In));
    put_u8(buf, 3);
    put_u16_le(buf, 16);
    put_u8(buf, 10);

    assert(buf@ =~= old(buf)@ + hid_section(interface_num, desc_len));
}

/// Write the 23-byte mass-storage section: interface descriptor, OUT bulk
/// endpoint, IN bulk endpoint.
fn write_msc_section(buf: &mut Vec<u8>, interface_num: u8)
    requires
        interface_num < 15,
    ensures
        final(buf)@ == old(buf)@ + msc_section(interface_num),
{
    // MSC INTERFACE DESCRIPTOR
    put_u8(buf, 9);
    put_u8(buf, 4);
    put_u8(buf, interface_num);
    put_u8(buf, 0);
    put_u8(buf, 2);
    put_u8(buf, 8);
    put_u8(buf, 6);
    put_u8(buf, 0x50);
    put_u8(buf, 5);

    // MSC ENDPOINT DESCRIPTOR (OUT)
    put_u8(buf, 7);
    put_u8(buf, 5);
    put_u8(buf, endpoint_address(interface_num + 1, Direction::Out));
    put_u8(buf, 2);
    put_u16_le(buf, 64);
    put_u8(buf, 0);

    // MSC ENDPOINT DESCRIPTOR (IN)
    put_u8(buf, 7);
    put_u8(buf, 5);
    put_u8(buf, endpoint_address(interface_num + 1, Direction::In));
    put_u8(buf, 2);
    put_u16_le(buf, 64);
    put_u8(buf, 0);

    assert(buf@ =~= old(buf)@ + msc_section(interface_num));
}

/// Build the composite configuration descriptor: the configuration header
/// (written first with a placeholder total length), one interface + HID +
/// IN-endpoint section per instance in declaration order, the optional
/// mass-storage section, and finally the true total length patched into the
/// header's little-endian length field. Fails with `ConfigurationOverflow`
/// exactly when the result would not fit the fixed working buffer.
pub fn config_descriptor(instances: &Vec<HidInstance>, include_msc: bool) -> (r: Result<
    Vec<u8>,
    UsbError,
>)
    requires
        forall|i: int|
            0 <= i < instances@.len() ==> (#[trigger] instances@[i]).descriptor@.len() <= 0xffff,
    ensures
        config_total_len(instances@.len() as int, include_msc) <= CONFIG_BUFFER_SIZE as int ==> (
        r matches Ok(buf) && buf@ == config_bytes(views_of(instances@), include_msc)),
        config_total_len(instances@.len() as int, include_msc) > CONFIG_BUFFER_SIZE as int ==> (r
            matches Err(e) && e is ConfigurationOverflow),
        r matches Ok(buf) ==> buf@.len() == config_total_len(instances@.len() as int, include_msc),
{
    let n = instances.len();
    if n > (CONFIG_BUFFER_SIZE - 9) / 25 {
        return Err(UsbError::ConfigurationOverflow);
    }
    let total: usize = 9 + 25 * n + if include_msc {
        23
    } else {
        0
    };
    if total > CONFIG_BUFFER_SIZE {
        return Err(UsbError::ConfigurationOverflow);
    }
    let num_interfaces: u8 = n as u8 + if include_msc {
        1
    } else {
        0
    };

    let ghost views = views_of(instances@);
    let mut buf: Vec<u8> = Vec::new();

    // CONFIGURATION DESCRIPTOR, total length still a placeholder
    write_header(&mut buf, num_interfaces);
    assert(buf@ =~= config_header(0, num_interfaces) + hid_sections(views, 0));

    let mut i: usize = 0;
    while i < n
        invariant
            i <= n,
            n == instances@.len(),
            n <= 4,
            views == views_of(instances@),
            forall|j: int|
                0 <= j < instances@.len() ==> (#[trigger] instances@[j]).descriptor@.len()
                    <= 0xffff,
            buf@ == config_header(0, num_interfaces) + hid_sections(views, i as int),
        decreases n - i,
    {
        let desc_len: u16 = instances[i].descriptor.len() as u16;
        let ghost before = buf@;
        write_hid_section(&mut buf, i as u8, desc_len);
        assert(views[i as int].descriptor.len() as u16 == desc_len);
        assert(buf@ =~= config_header(0, num_interfaces) + hid_sections(views, i + 1));
        i = i + 1;
    }

    let ghost rest = hid_sections(views, n as int) + if include_msc {
        msc_section(n as u8)
    } else {
        Seq::<u8>::empty()
    };
    if include_msc {
        write_msc_section(&mut buf, n as u8);
    }
    assert(buf@ =~= config_header(0, num_interfaces) + rest);

    // Patch the true total length into the header's little-endian field.
    proof {
        lemma_hid_sections_len(views, n as int);
    }
    let lo: u8 = (total % 256) as u8;
    let hi: u8 = (total / 256) as u8;
    buf[2] = lo;
    buf[3] = hi;

    assert(buf@ =~= config_header(total as u16, num_interfaces) + rest);
    assert(buf@ =~= config_bytes(views, include_msc));
    Ok(buf)
}

} // verus!
