use rusted_nes::memory::hooks::MemoryEvent;
use rusted_nes::memory::hooks::MemoryEventChannel;
use rusted_nes::memory::hooks::MemoryOperation;
use rusted_nes::memory::MemoryMirror;
use rusted_nes::memory::MemoryRegion;
use rusted_nes::memory::WriteProtectedRegion;
use rusted_nes::memory::MEM;
use rusted_nes::memory::MEMORY_SIZE;

#[test]
fn test_get_hooks() {
    let mut test_memory: MEM = MEM::new(MEMORY_SIZE);

    let tx1 = test_memory.open_channel();
    let tx2 = test_memory.open_channel();

    test_memory.push_hook(
        MemoryOperation::Read,
        MemoryRegion {
            region_address: 0x0010,
            region_size: 0x0010,
        },
        tx1,
    );
    test_memory.push_hook(
        MemoryOperation::Write,
        MemoryRegion {
            region_address: 0x0010,
            region_size: 0x0010,
        },
        tx2,
    );

    assert_eq!(test_memory.get_hooks(MemoryOperation::Read,  0x000F).is_empty(), true);
    assert_eq!(test_memory.get_hooks(MemoryOperation::Write, 0x000F).is_empty(), true);
    assert_eq!(test_memory.get_hooks(MemoryOperation::Read,  0x0020).is_empty(), true);
    assert_eq!(test_memory.get_hooks(MemoryOperation::Write, 0x0020).is_empty(), true);

    assert_eq!(test_memory.get_hooks(MemoryOperation::Read,  0x0010).is_empty(), false);
    assert_eq!(test_memory.get_hooks(MemoryOperation::Write, 0x0010).is_empty(), false);
    assert_eq!(test_memory.get_hooks(MemoryOperation::Read,  0x001F).is_empty(), false);
    assert_eq!(test_memory.get_hooks(MemoryOperation::Write, 0x001F).is_empty(), false);
}

fn memory_with_four_hooks() -> MEM {
    let mut test_memory: MEM = MEM::new(MEMORY_SIZE);

    let tx1 = test_memory.open_channel();
    let tx2 = test_memory.open_channel();
    let tx3 = test_memory.open_channel();
    let tx4 = test_memory.open_channel();

    test_memory.push_hook(
        MemoryOperation::Read,
        MemoryRegion {
            region_address: 0x0010,
            region_size: 0x0020,
        },
        tx1,
    );
    test_memory.push_hook(
        MemoryOperation::Read,
        MemoryRegion {
            region_address: 0x0020,
            region_size: 0x0010,
        },
        tx2,
    );
    test_memory.push_hook(
        MemoryOperation::Write,
        MemoryRegion {
            region_address: 0x0010,
            region_size: 0x0020,
        },
        tx3,
    );
    test_memory.push_hook(
        MemoryOperation::Write,
        MemoryRegion {
            region_address: 0x0020,
            region_size: 0x0010,
        },
        tx4,
    );
    test_memory
}

#[test]
fn test_multiple_hooks() {
    let test_memory = memory_with_four_hooks();

    assert_eq!(test_memory.get_hooks(MemoryOperation::Read, 0x0007).len(), 0);
    assert_eq!(test_memory.get_hooks(MemoryOperation::Read, 0x0017).len(), 1);
    assert_eq!(test_memory.get_hooks(MemoryOperation::Read, 0x0027).len(), 2);
    assert_eq!(test_memory.get_hooks(MemoryOperation::Read, 0x0037).len(), 0);

    assert_eq!(test_memory.get_hooks(MemoryOperation::Write, 0x0007).len(), 0);
    assert_eq!(test_memory.get_hooks(MemoryOperation::Write, 0x0017).len(), 1);
    assert_eq!(test_memory.get_hooks(MemoryOperation::Write, 0x0027).len(), 2);
    assert_eq!(test_memory.get_hooks(MemoryOperation::Write, 0x0037).len(), 0);
}

#[test]
fn test_multiple_hooks_send() {
    let test_memory = memory_with_four_hooks();
    let mut rx1 = MemoryEventChannel::new();
    let mut rx2 = MemoryEventChannel::new();
    let mut rx3 = MemoryEventChannel::new();
    let mut rx4 = MemoryEventChannel::new();

    for (operation, address, value) in [
        (MemoryOperation::Read, 0x0007, 0xDE),
        (MemoryOperation::Read, 0x0017, 0xAD),
        (MemoryOperation::Read, 0x0027, 0xBE),
        (MemoryOperation::Read, 0x0037, 0xEF),
        (MemoryOperation::Write, 0x0007, 0xDE),
        (MemoryOperation::Write, 0x0017, 0xAD),
        (MemoryOperation::Write, 0x0027, 0xBE),
        (MemoryOperation::Write, 0x0037, 0xEF),
    ] {
        for hook in test_memory.get_hooks(operation, address) {
            match hook.sink {
                0 => hook.send(&mut rx1, address, value),
                1 => hook.send(&mut rx2, address, value),
                2 => hook.send(&mut rx3, address, value),
                _ => hook.send(&mut rx4, address, value),
            }
        }
    }

    assert_eq!(rx1.try_recv(), Some(MemoryEvent{
        operation: MemoryOperation::Read,
        address: 0x0017,
        value: 0xAD,
    }));
    assert_eq!(rx1.try_recv(), Some(MemoryEvent{
        operation: MemoryOperation::Read,
        address: 0x0027,
        value: 0xBE,
    }));
    assert_eq!(rx1.try_recv(), None);

    assert_eq!(rx2.try_recv(), Some(MemoryEvent{
        operation: MemoryOperation::Read,
        address: 0x0027,
        value: 0xBE,
    }));
    assert_eq!(rx2.try_recv(), None);

    assert_eq!(rx3.try_recv(), Some(MemoryEvent{
        operation: MemoryOperation::Write,
        address: 0x0017,
        value: 0xAD,
    }));
    assert_eq!(rx3.try_recv(), Some(MemoryEvent{
        operation: MemoryOperation::Write,
        address: 0x0027,
        value: 0xBE,
    }));
    assert_eq!(rx3.try_recv(), None);

    assert_eq!(rx4.try_recv(), Some(MemoryEvent{
        operation: MemoryOperation::Write,
        address: 0x0027,
        value: 0xBE,
    }));
    assert_eq!(rx4.try_recv(), None);
}

#[test]
fn accesses_report_to_the_channels_of_their_hooks() {
    let mut test_memory = memory_with_four_hooks();
    test_memory.data[0x0027] = 0x5A;
    test_memory.data[0x0028] = 0x5B;

    assert_eq!(test_memory.read(0x0007, 1), 0x00);
    assert_eq!(test_memory.read(0x0027, 2), 0x5B5A);
    test_memory.write(0x0017, 0xAD);
    test_memory.write(0x0027, 0xBE);

    assert_eq!(test_memory.channels[0].len(), 2);
    assert_eq!(test_memory.channels[1].len(), 2);
    assert_eq!(test_memory.channels[2].len(), 2);
    assert_eq!(test_memory.channels[3].len(), 1);
    assert_eq!(test_memory.try_recv(0), Some(MemoryEvent {
        operation: MemoryOperation::Read,
        address: 0x0027,
        value: 0x5A,
    }));
    assert_eq!(test_memory.try_recv(0), Some(MemoryEvent {
        operation: MemoryOperation::Read,
        address: 0x0028,
        value: 0x5B,
    }));
    assert_eq!(test_memory.try_recv(0), None);
    assert_eq!(test_memory.try_recv(2), Some(MemoryEvent {
        operation: MemoryOperation::Write,
        address: 0x0017,
        value: 0xAD,
    }));
    assert_eq!(test_memory.try_recv(3), Some(MemoryEvent {
        operation: MemoryOperation::Write,
        address: 0x0027,
        value: 0xBE,
    }));
    assert_eq!(test_memory.channels[3].is_empty(), true);
}

#[test]
fn one_event_for_each_matching_access() {
    let mut test_memory: MEM = MEM::new(MEMORY_SIZE);
    let sink = test_memory.open_channel();
    test_memory.push_hook(
        MemoryOperation::Read,
        MemoryRegion { region_address: 0x2002, region_size: 1 },
        sink,
    );
    test_memory.push_hook(
        MemoryOperation::Write,
        MemoryRegion { region_address: 0x2006, region_size: 2 },
        sink,
    );

    let mut matching = 0;
    for round in 0..10u8 {
        test_memory.read(0x2000, 4);
        matching += 1;
        test_memory.write(0x2005, round);
        test_memory.write(0x2006, round);
        test_memory.write(0x2007, round);
        matching += 2;
        test_memory.peek(0x2002);
    }

    let mut delivered = 0;
    while let Some(_) = test_memory.try_recv(sink) {
        delivered += 1;
    }
    assert_eq!(delivered, matching);
    assert_eq!(delivered, 30);
}

#[test]
fn hooks_report_the_address_that_was_asked_for() {
    let mut test_memory: MEM = MEM::new(MEMORY_SIZE);
    let sink = test_memory.open_channel();
    test_memory.push_mirrored_range(MemoryMirror {
        physical_memory: MemoryRegion { region_address: 0x2000, region_size: 8 },
        mirrored_memory: MemoryRegion { region_address: 0x2008, region_size: 8 },
    }).unwrap();
    test_memory.push_hook(
        MemoryOperation::Write,
        MemoryRegion { region_address: 0x2008, region_size: 8 },
        sink,
    );

    test_memory.write(0x200A, 0x99);
    test_memory.write(0x2002, 0x11);

    assert_eq!(test_memory.data[0x2002], 0x11);
    assert_eq!(test_memory.try_recv(sink), Some(MemoryEvent {
        operation: MemoryOperation::Write,
        address: 0x200A,
        value: 0x99,
    }));
    assert_eq!(test_memory.try_recv(sink), None);
}

#[test]
fn protected_writes_report_nothing() {
    let mut test_memory: MEM = MEM::new(MEMORY_SIZE);
    let sink = test_memory.open_channel();
    test_memory.push_hook(
        MemoryOperation::Write,
        MemoryRegion { region_address: 0x0000, region_size: 0x10 },
        sink,
    );
    test_memory.push_write_protected_region(WriteProtectedRegion {
        protected_memory: MemoryRegion { region_address: 0x0004, region_size: 4 },
    });

    test_memory.write(0x0004, 1);
    test_memory.write(0x0008, 2);

    assert_eq!(test_memory.try_recv(sink), Some(MemoryEvent {
        operation: MemoryOperation::Write,
        address: 0x0008,
        value: 2,
    }));
    assert_eq!(test_memory.try_recv(sink), None);
}

#[test]
fn channel_is_first_in_first_out() {
    let mut channel = MemoryEventChannel::new();
    assert_eq!(channel.is_empty(), true);
    for value in 0..5u8 {
        channel.send(MemoryEvent { operation: MemoryOperation::Write, address: 0x2007, value });
    }
    assert_eq!(channel.len(), 5);
    for value in 0..5u8 {
        assert_eq!(channel.try_recv().map(|event| event.value), Some(value));
    }
    assert_eq!(channel.try_recv(), None);
}

#[test]
fn hook_without_a_channel_reports_nothing() {
    let mut test_memory: MEM = MEM::new(MEMORY_SIZE);
    test_memory.push_hook(
        MemoryOperation::Write,
        MemoryRegion { region_address: 0x0000, region_size: 0x10 },
        0,
    );

    test_memory.write(0x0001, 0x11);
    assert_eq!(test_memory.data[0x0001], 0x11);
    assert_eq!(test_memory.channels.len(), 0);

    let sink = test_memory.open_channel();
    test_memory.write(0x0002, 0x22);
    assert_eq!(test_memory.try_recv(sink), Some(MemoryEvent {
        operation: MemoryOperation::Write,
        address: 0x0002,
        value: 0x22,
    }));
    assert_eq!(test_memory.try_recv(sink), None);
}

#[test]
fn receive_from_a_missing_channel() {
    let mut test_memory: MEM = MEM::new(MEMORY_SIZE);
    assert_eq!(test_memory.try_recv(0), None);
    let sink = test_memory.open_channel();
    assert_eq!(test_memory.try_recv(sink), None);
    assert_eq!(test_memory.try_recv(sink + 1), None);
    assert_eq!(test_memory.channels.len(), 1);
}
