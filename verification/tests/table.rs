use netioapi::ip_forward::MibIpForwardRow2;
use netioapi::ip_forward::MibIpForwardTable2;
use netioapi::ip_forward::MibIpForwardTable2Iter;
use netioapi::ip_forward2::IpForward2;
use netioapi::ip_forward2::IpForwardTable2;
use netioapi::record::RouteRecord;
use netioapi::record::UnicastAddressRecord;
use netioapi::record::AF_INET;
use netioapi::record::AF_INET6;
use netioapi::table::Table;
use netioapi::unicast_ip::MibUnicastIpAddressRow;
use netioapi::unicast_ip::MibUnicastIpAddressTable;
use netioapi::Error;
use netioapi::NO_ERROR;

fn route(index: u32, metric: u32) -> MibIpForwardRow2 {
    let mut record = RouteRecord::zeroed();
    record.interface_index = index;
    record.interface_luid = 0x0006_0000_0000_0000 + index as u64;
    record.destination_prefix.prefix.family = AF_INET;
    record.destination_prefix.prefix.address[0] = 10;
    record.destination_prefix.prefix.address[1] = index as u8;
    record.destination_prefix.prefix_length = 16;
    record.next_hop.family = AF_INET;
    record.next_hop.address[0] = 10;
    record.next_hop.address[3] = 1;
    record.metric = metric;
    MibIpForwardRow2::new(record)
}

fn routes(count: u32) -> Vec<MibIpForwardRow2> {
    (0..count).map(|index| route(index, 100 + index)).collect()
}

fn unicast(index: u32) -> MibUnicastIpAddressRow {
    let mut record = UnicastAddressRecord::zeroed();
    record.address.family = AF_INET6;
    record.address.address[0] = 0xfe;
    record.address.address[1] = 0x80;
    record.address.address[15] = index as u8;
    record.interface_index = index;
    record.on_link_prefix_length = 64;
    MibUnicastIpAddressRow::new(record)
}

/// Stands for the system's free routine: it counts how often each handle is freed.
struct Allocations {
    freed: Vec<usize>,
}

impl Allocations {
    fn free(&mut self, released: Option<usize>) {
        if let Some(handle) = released {
            self.freed.push(handle);
        }
    }
}

#[test]
fn failed_query_owns_nothing() {
    let res = MibIpForwardTable2::new(5, 0, Vec::new());
    assert!(matches!(res, Err(Error::OsStatus(5))));
    let res = MibIpForwardTable2::new(1168, 0x7000, routes(3));
    assert!(matches!(res, Err(Error::OsStatus(1168))));
}

#[test]
fn success_with_a_null_handle_is_an_invalid_internal_state() {
    let res = MibIpForwardTable2::new(NO_ERROR, 0, routes(2));
    assert!(matches!(res, Err(Error::InvalidInternalState)));
    let res: Result<Table<u32>, Error> = Table::new(NO_ERROR, 0, Vec::new());
    assert!(matches!(res, Err(Error::InvalidInternalState)));
}

#[test]
fn successful_query_owns_the_entries() {
    let table = MibIpForwardTable2::new(NO_ERROR, 0x7000, routes(4)).unwrap();
    assert_eq!(table.len(), 4);
    assert!(!table.is_released());
}

#[test]
fn iteration_yields_each_slot_in_order() {
    let slots = routes(5);
    let table = MibIpForwardTable2::new(NO_ERROR, 0x7000, slots.clone()).unwrap();
    let mut it = table.iter();
    let mut yielded = 0;
    while let Some(row) = it.next() {
        assert_eq!(row, slots[yielded]);
        assert_eq!(row.inner.metric, 100 + yielded as u32);
        yielded += 1;
    }
    assert_eq!(yielded, 5);
    assert_eq!(yielded, table.len());
}

#[test]
fn iteration_does_not_repeat_the_first_slot() {
    let table = MibIpForwardTable2::new(NO_ERROR, 0x7000, routes(3)).unwrap();
    let mut it = table.iter();
    assert_eq!(it.next().unwrap().inner.interface_index, 0);
    assert_eq!(it.next().unwrap().inner.interface_index, 1);
    assert_eq!(it.next().unwrap().inner.interface_index, 2);
    assert_eq!(it.next(), None);
}

#[test]
fn iteration_of_a_large_table_yields_its_length() {
    let slots: Vec<u64> = (0..10_000u64).map(|n| n * n).collect();
    let table = Table::new(NO_ERROR, 1, slots.clone()).unwrap();
    let mut it = table.iter();
    let mut yielded: Vec<u64> = Vec::new();
    while let Some(item) = it.next() {
        yielded.push(item);
    }
    assert_eq!(yielded.len(), 10_000);
    assert_eq!(yielded, slots);
}

#[test]
fn iteration_of_an_empty_table_yields_nothing() {
    let table = MibUnicastIpAddressTable::new(NO_ERROR, 0x10, Vec::new()).unwrap();
    assert_eq!(table.len(), 0);
    let mut it = table.iter();
    assert_eq!(it.next(), None);
    assert_eq!(it.next(), None);
}

#[test]
fn spent_cursor_stays_spent() {
    let table = MibIpForwardTable2::new(NO_ERROR, 0x7000, routes(2)).unwrap();
    let mut it = table.iter();
    assert!(it.next().is_some());
    assert!(it.next().is_some());
    for _ in 0..10 {
        assert_eq!(it.next(), None);
    }
}

#[test]
fn each_cursor_starts_at_the_first_slot() {
    let table = MibIpForwardTable2::new(NO_ERROR, 0x7000, routes(3)).unwrap();
    let mut first = table.iter();
    assert_eq!(first.next(), Some(route(0, 100)));
    assert_eq!(first.next(), Some(route(1, 101)));
    let mut second = table.iter();
    assert_eq!(second.next(), Some(route(0, 100)));
    assert_eq!(first.next(), Some(route(2, 102)));
    assert_eq!(second.next(), Some(route(1, 101)));
    assert_eq!(first.next(), None);
    assert_eq!(second.next(), Some(route(2, 102)));
    assert_eq!(second.next(), None);
}

#[test]
fn items_are_copies() {
    let table = MibIpForwardTable2::new(NO_ERROR, 0x7000, routes(2)).unwrap();
    let mut it = table.iter();
    let mut item = it.next().unwrap();
    item.inner.metric = 9999;
    let mut again = table.iter();
    assert_eq!(again.next().unwrap().inner.metric, 100);
}

#[test]
fn collect_returns_every_entry_of_a_fresh_cursor() {
    let slots = routes(6);
    let table = MibIpForwardTable2::new(NO_ERROR, 0x7000, slots.clone()).unwrap();
    let mut it: MibIpForwardTable2Iter = table.iter();
    assert_eq!(it.collect(), slots);
    assert_eq!(it.next(), None);
    assert_eq!(it.collect(), Vec::new());
}

#[test]
fn collect_returns_the_entries_not_yet_passed() {
    let slots = routes(6);
    let table = MibIpForwardTable2::new(NO_ERROR, 0x7000, slots.clone()).unwrap();
    let mut it = table.iter();
    it.next();
    it.next();
    assert_eq!(it.collect(), slots[2..].to_vec());
}

#[test]
fn unicast_table_yields_its_rows() {
    let slots = vec![unicast(1), unicast(2), unicast(3)];
    let table = MibUnicastIpAddressTable::new(NO_ERROR, 0x20, slots.clone()).unwrap();
    let mut it = table.iter();
    assert_eq!(it.next(), Some(slots[0]));
    assert_eq!(it.next(), Some(slots[1]));
    assert_eq!(it.next(), Some(slots[2]));
    assert_eq!(it.next(), None);
}

#[test]
fn route_table_of_the_second_module_yields_its_rows() {
    let mut record = RouteRecord::zeroed();
    record.metric = 7;
    let slots = vec![IpForward2::new(record), IpForward2::new(RouteRecord::zeroed())];
    let table = IpForwardTable2::new(NO_ERROR, 0x30, slots.clone()).unwrap();
    assert_eq!(table.iter().collect(), slots);
}

#[test]
fn release_without_iteration_frees_once() {
    let mut os = Allocations { freed: Vec::new() };
    let mut table = MibIpForwardTable2::new(NO_ERROR, 0x7000, routes(4)).unwrap();
    os.free(table.release());
    os.free(table.release());
    os.free(table.release());
    assert_eq!(os.freed, vec![0x7000]);
}

#[test]
fn release_after_partial_iteration_frees_once() {
    let mut os = Allocations { freed: Vec::new() };
    let mut table = MibIpForwardTable2::new(NO_ERROR, 0x7100, routes(4)).unwrap();
    {
        let mut it = table.iter();
        it.next();
        it.next();
    }
    os.free(table.release());
    os.free(table.release());
    assert_eq!(os.freed, vec![0x7100]);
}

#[test]
fn release_after_full_iteration_frees_once() {
    let mut os = Allocations { freed: Vec::new() };
    let mut table = MibIpForwardTable2::new(NO_ERROR, 0x7200, routes(4)).unwrap();
    assert_eq!(table.iter().collect().len(), 4);
    assert_eq!(table.iter().collect().len(), 4);
    os.free(table.release());
    os.free(table.release());
    assert_eq!(os.freed, vec![0x7200]);
}

#[test]
fn release_of_an_empty_table_frees_once() {
    let mut os = Allocations { freed: Vec::new() };
    let mut table: Table<u8> = Table::new(NO_ERROR, usize::MAX, Vec::new()).unwrap();
    os.free(table.release());
    os.free(table.release());
    assert_eq!(os.freed, vec![usize::MAX]);
}

#[test]
fn failed_query_frees_nothing() {
    let mut os = Allocations { freed: Vec::new() };
    if let Ok(mut table) = MibIpForwardTable2::new(87, 0x7300, routes(1)) {
        os.free(table.release());
    }
    assert_eq!(os.freed, Vec::new());
}

#[test]
fn released_table_has_no_entries() {
    let mut table = MibIpForwardTable2::new(NO_ERROR, 0x7000, routes(4)).unwrap();
    assert_eq!(table.release(), Some(0x7000));
    assert!(table.is_released());
    assert_eq!(table.len(), 0);
    assert_eq!(table.iter().next(), None);
    assert_eq!(table.iter().collect(), Vec::new());
}
