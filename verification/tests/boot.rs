use coonboot::boot::{Boot, BootEvent, BootRequest};
use coonboot::elf::SegmentKind;
use coonboot::error::{BootError, BootStatus};
use coonboot::locator::{LocatorEvent, LocatorRequest, OpenOutcome};
use coonboot::platform::{
    acpi2_guid, smbios3_guid, ConfigEntry, FramebufferInfo, MemoryRegionDescriptor,
    MemoryRegionKind, PixelFormat,
};
use coonboot::query::QueryReply;
use coonboot::reader::{ReaderEvent, ReaderRequest};
use coonboot::transition::{
    CaptureOutcome, ExitOutcome, MapSize, TransitionEvent, TransitionRequest,
};

/// A machine to boot on, as far as the loader can tell.
struct Firmware {
    services: bool,
    config: Vec<ConfigEntry>,
    framebuffer: Option<FramebufferInfo>,
    /// The kernel file on each volume, if the volume has one.
    volumes: Vec<Option<Vec<u8>>>,
    memory_map: Vec<MemoryRegionDescriptor>,
    /// Number of exits that are rejected as stale before one succeeds.
    stale_exits: u32,
    /// What was allocated between the last capture and the exit.
    allocations_since_capture: u32,
    opened: Option<usize>,
    key: usize,
    trace: Vec<BootRequest>,
    services_ended: bool,
}

fn machine(volumes: Vec<Option<Vec<u8>>>) -> Firmware {
    Firmware {
        services: true,
        config: vec![
            ConfigEntry { guid: smbios3_guid(), address: 0x7f00_0000 },
            ConfigEntry { guid: acpi2_guid(), address: 0x7fe0_0014 },
        ],
        framebuffer: None,
        volumes,
        memory_map: vec![
            MemoryRegionDescriptor {
                kind: MemoryRegionKind::Usable,
                phys_start: 0x10_0000,
                page_count: 0x4000,
                attributes: 0xf,
            },
            MemoryRegionDescriptor {
                kind: MemoryRegionKind::LoaderData,
                phys_start: 0x410_0000,
                page_count: 0x20,
                attributes: 0xf,
            },
            MemoryRegionDescriptor {
                kind: MemoryRegionKind::AcpiReclaimable,
                phys_start: 0x7fe0_0000,
                page_count: 0x10,
                attributes: 0xf,
            },
        ],
        stale_exits: 0,
        allocations_since_capture: 0,
        opened: None,
        key: 100,
        trace: Vec::new(),
        services_ended: false,
    }
}

impl Firmware {
    fn serve(&mut self, request: BootRequest) -> BootEvent {
        assert!(!self.services_ended || request == BootRequest::Transition(TransitionRequest::PopulateMap));
        match request {
            BootRequest::InitServices => BootEvent::Services(self.services),
            BootRequest::ReadConfigTable => BootEvent::ConfigTable(self.config.clone()),
            BootRequest::LocateFramebuffer => BootEvent::Framebuffer(self.framebuffer),
            BootRequest::Locator(LocatorRequest::CountVolumes) => {
                if self.volumes.is_empty() {
                    BootEvent::Locator(LocatorEvent::Enumerated(QueryReply::Failed))
                } else {
                    BootEvent::Locator(LocatorEvent::Enumerated(QueryReply::TooSmall(Some(
                        self.volumes.len(),
                    ))))
                }
            }
            BootRequest::Locator(LocatorRequest::ListVolumes(count)) => {
                if count < self.volumes.len() {
                    BootEvent::Locator(LocatorEvent::Enumerated(QueryReply::TooSmall(Some(
                        self.volumes.len(),
                    ))))
                } else {
                    BootEvent::Locator(LocatorEvent::Enumerated(QueryReply::Complete(
                        self.volumes.len(),
                    )))
                }
            }
            BootRequest::Locator(LocatorRequest::OpenKernel(index)) => {
                let outcome = match &self.volumes[index] {
                    Some(_) => {
                        self.opened = Some(index);
                        OpenOutcome::Opened
                    }
                    None => OpenOutcome::FileFailed,
                };
                BootEvent::Locator(LocatorEvent::Attempted(outcome))
            }
            BootRequest::Reader(ReaderRequest::ProbeInfo) => {
                BootEvent::Reader(ReaderEvent::Info(QueryReply::TooSmall(Some(96))))
            }
            BootRequest::Reader(ReaderRequest::FetchInfo(size)) => {
                assert_eq!(size, 96);
                let file = self.volumes[self.opened.unwrap()].as_ref().unwrap();
                BootEvent::Reader(ReaderEvent::Info(QueryReply::Complete(file.len() as u64)))
            }
            BootRequest::Reader(ReaderRequest::ReadFile(len)) => {
                let file = self.volumes[self.opened.unwrap()].as_ref().unwrap();
                assert_eq!(len, file.len());
                BootEvent::Reader(ReaderEvent::Read { buffer: file.clone(), count: Some(len) })
            }
            BootRequest::Transition(TransitionRequest::QueryMapSize) => {
                BootEvent::Transition(TransitionEvent::Sized(Some(MapSize {
                    map_size: self.memory_map.len() * 48,
                    entry_size: 48,
                })))
            }
            BootRequest::Transition(TransitionRequest::CaptureMap(buffer)) => {
                // Allocating the buffer splits a region of the map.
                self.memory_map.push(MemoryRegionDescriptor {
                    kind: MemoryRegionKind::LoaderData,
                    phys_start: 0x500_0000 + 0x1000 * self.key as u64,
                    page_count: 1,
                    attributes: 0xf,
                });
                self.key += 1;
                self.allocations_since_capture = 0;
                if self.memory_map.len() <= buffer.capacity {
                    BootEvent::Transition(TransitionEvent::Capture(CaptureOutcome::Captured(
                        self.key,
                    )))
                } else {
                    BootEvent::Transition(TransitionEvent::Capture(CaptureOutcome::TooSmall))
                }
            }
            BootRequest::Transition(TransitionRequest::ExitFirmware(key)) => {
                if self.stale_exits > 0 {
                    // Something allocated behind the loader's back.
                    self.stale_exits -= 1;
                    self.key += 1;
                    self.allocations_since_capture += 1;
                }
                let outcome = if key == self.key && self.allocations_since_capture == 0 {
                    self.services_ended = true;
                    ExitOutcome::Exited
                } else {
                    ExitOutcome::Stale
                };
                BootEvent::Transition(TransitionEvent::Exit(outcome))
            }
            BootRequest::Transition(TransitionRequest::PopulateMap) => {
                assert!(self.services_ended);
                BootEvent::MemoryMap(self.memory_map.clone())
            }
            BootRequest::Locator(LocatorRequest::Finished)
            | BootRequest::Reader(ReaderRequest::Finished)
            | BootRequest::Transition(TransitionRequest::TransferControl)
            | BootRequest::Transition(TransitionRequest::Halt(_))
            | BootRequest::TransferControl(_)
            | BootRequest::Return(_) => unreachable!(),
        }
    }

    /// Runs a boot attempt to its end.
    fn boot(&mut self) -> Boot {
        let mut boot = Boot::start();
        for _ in 0..200 {
            let request = boot.request();
            self.trace.push(request);
            match request {
                BootRequest::TransferControl(_) | BootRequest::Return(_) => return boot,
                _ => {
                    assert_eq!(boot.status(), None);
                    let event = self.serve(request);
                    boot = boot.step(event);
                }
            }
        }
        panic!("the boot attempt does not end");
    }
}

fn kernel(entry: u64, kinds: &[u32]) -> Vec<u8> {
    let mut bytes = vec![0u8; 64];
    bytes[..7].copy_from_slice(&[0x7f, b'E', b'L', b'F', 2, 1, 1]);
    bytes[24..32].copy_from_slice(&entry.to_le_bytes());
    bytes[32..40].copy_from_slice(&64u64.to_le_bytes());
    bytes[54..56].copy_from_slice(&56u16.to_le_bytes());
    bytes[56..58].copy_from_slice(&(kinds.len() as u16).to_le_bytes());
    for (i, kind) in kinds.iter().enumerate() {
        let i = i as u64;
        bytes.extend_from_slice(&kind.to_le_bytes());
        bytes.extend_from_slice(&5u32.to_le_bytes());
        bytes.extend_from_slice(&(0x1000 * (i + 1)).to_le_bytes());
        bytes.extend_from_slice(&(0xffff_8000_0000_0000 + 0x1000 * i).to_le_bytes());
        bytes.extend_from_slice(&(0x10_0000 + 0x1000 * i).to_le_bytes());
        bytes.extend_from_slice(&0x800u64.to_le_bytes());
        bytes.extend_from_slice(&0x1000u64.to_le_bytes());
        bytes.extend_from_slice(&0x1000u64.to_le_bytes());
    }
    bytes.resize(0x1000 * (kinds.len() + 2), 0x90);
    bytes
}

#[test]
fn scenario_a_boots_without_a_framebuffer() {
    let image = kernel(0xffff_8000_0000_0040, &[1, 1]);
    let mut firmware = machine(vec![Some(image.clone())]);
    let boot = firmware.boot();
    assert_eq!(boot.status(), Some(BootStatus::Success));
    assert_eq!(boot.request(), BootRequest::TransferControl(0xffff_8000_0000_0040));

    let handoff = boot.into_handoff().ok().unwrap();
    assert_eq!(handoff.entry, 0xffff_8000_0000_0040);
    assert_eq!(handoff.platform.acpi_root(), 0x7fe0_0014);
    assert_eq!(handoff.platform.smbios_root(), 0x7f00_0000);
    assert_eq!(handoff.platform.framebuffer(), None);
    assert!(handoff.platform.is_finalized());
    let map = handoff.platform.memory_map().unwrap();
    assert!(!map.is_empty());
    assert_eq!(map, &firmware.memory_map);
    assert_eq!(map.len(), 4);
    assert_eq!(handoff.kernel.as_slice(), &image[..]);
    assert_eq!(handoff.image.segments().len(), 2);
    assert_eq!(handoff.image.segments()[0].kind, SegmentKind::Load);
    assert_eq!(handoff.image.segments()[0].offset, 0x1000);
    assert_eq!(handoff.image.segments()[1].offset, 0x2000);
    assert_eq!(handoff.image.segments()[1].virtual_addr, 0xffff_8000_0000_1000);
    assert!(firmware.services_ended);
}

#[test]
fn requests_come_in_pipeline_order() {
    let mut firmware = machine(vec![Some(kernel(0x1000, &[1]))]);
    firmware.boot();
    let entries = firmware.memory_map.len() - 1;
    assert_eq!(firmware.trace.len(), 14);
    assert_eq!(firmware.trace[0], BootRequest::InitServices);
    assert_eq!(firmware.trace[1], BootRequest::ReadConfigTable);
    assert_eq!(firmware.trace[2], BootRequest::LocateFramebuffer);
    assert_eq!(firmware.trace[3], BootRequest::Locator(LocatorRequest::CountVolumes));
    assert_eq!(firmware.trace[4], BootRequest::Locator(LocatorRequest::ListVolumes(1)));
    assert_eq!(firmware.trace[5], BootRequest::Locator(LocatorRequest::OpenKernel(0)));
    assert_eq!(firmware.trace[6], BootRequest::Reader(ReaderRequest::ProbeInfo));
    assert_eq!(firmware.trace[7], BootRequest::Reader(ReaderRequest::FetchInfo(96)));
    assert_eq!(firmware.trace[8], BootRequest::Reader(ReaderRequest::ReadFile(0x3000)));
    assert_eq!(firmware.trace[9], BootRequest::Transition(TransitionRequest::QueryMapSize));
    assert!(matches!(
        firmware.trace[10],
        BootRequest::Transition(TransitionRequest::CaptureMap(buffer))
            if buffer.buffer_size == (entries + 8) * 48 && buffer.capacity == entries + 8
    ));
    assert_eq!(firmware.trace[11], BootRequest::Transition(TransitionRequest::ExitFirmware(101)));
    assert_eq!(firmware.trace[12], BootRequest::Transition(TransitionRequest::PopulateMap));
    assert_eq!(firmware.trace[13], BootRequest::TransferControl(0x1000));
}

#[test]
fn framebuffer_is_handed_on_when_present() {
    let framebuffer = FramebufferInfo {
        base: 0xc000_0000,
        size: 800 * 600 * 4,
        width: 800,
        height: 600,
        stride: 832,
        format: PixelFormat::Rgb,
    };
    let mut firmware = machine(vec![Some(kernel(0x1000, &[1]))]);
    firmware.framebuffer = Some(framebuffer);
    let handoff = firmware.boot().into_handoff().ok().unwrap();
    assert_eq!(handoff.platform.framebuffer(), Some(framebuffer));
}

#[test]
fn scenario_b_no_volumes_is_not_found() {
    let mut firmware = machine(vec![]);
    let boot = firmware.boot();
    assert_eq!(boot.status(), Some(BootStatus::NotFound));
    assert_eq!(boot.request(), BootRequest::Return(BootStatus::NotFound));
    assert!(boot.into_handoff().is_err());
    assert!(!firmware.services_ended);
}

#[test]
fn volumes_without_a_kernel_are_not_found() {
    let mut firmware = machine(vec![None, None, None]);
    let boot = firmware.boot();
    assert_eq!(boot.status(), Some(BootStatus::NotFound));
    let opens: Vec<&BootRequest> = firmware
        .trace
        .iter()
        .filter(|r| matches!(r, BootRequest::Locator(LocatorRequest::OpenKernel(_))))
        .collect();
    assert_eq!(opens.len(), 3);
}

#[test]
fn kernel_on_a_later_volume_is_booted() {
    let image = kernel(0x20_0000, &[6, 1, 2, 1]);
    let mut firmware = machine(vec![None, None, Some(image.clone()), Some(vec![0; 8])]);
    let handoff = firmware.boot().into_handoff().ok().unwrap();
    assert_eq!(firmware.opened, Some(2));
    assert_eq!(handoff.entry, 0x20_0000);
    assert_eq!(handoff.kernel.as_slice(), &image[..]);
    assert_eq!(handoff.image.segments().len(), 2);
    assert_eq!(handoff.image.segments()[0].offset, 0x2000);
    assert_eq!(handoff.image.segments()[1].offset, 0x4000);
}

#[test]
fn scenario_c_wrong_magic_aborts() {
    let mut image = kernel(0x1000, &[1, 1]);
    image[0] = 0x7e;
    let mut firmware = machine(vec![Some(image)]);
    let boot = firmware.boot();
    assert_eq!(boot.status(), Some(BootStatus::Aborted));
    assert_eq!(boot.request(), BootRequest::Return(BootStatus::Aborted));
    assert_eq!(*firmware.trace.iter().rev().nth(1).unwrap(), BootRequest::Reader(ReaderRequest::ReadFile(0x4000)));
    assert!(!firmware.services_ended);
}

#[test]
fn empty_kernel_file_is_read_then_rejected() {
    let mut firmware = machine(vec![Some(Vec::new())]);
    let boot = firmware.boot();
    assert_eq!(boot.status(), Some(BootStatus::Aborted));
    assert_eq!(boot.failure(), Some(BootError::MalformedImage));
    assert_eq!(
        *firmware.trace.iter().rev().nth(1).unwrap(),
        BootRequest::Reader(ReaderRequest::ReadFile(0))
    );
}

#[test]
fn missing_services_abort_before_anything_else() {
    let mut firmware = machine(vec![Some(kernel(0x1000, &[1]))]);
    firmware.services = false;
    let boot = firmware.boot();
    assert_eq!(boot.status(), Some(BootStatus::Aborted));
    assert_eq!(firmware.trace, vec![BootRequest::InitServices, BootRequest::Return(BootStatus::Aborted)]);
}

#[test]
fn platform_without_roots_aborts_before_the_search() {
    let mut firmware = machine(vec![Some(kernel(0x1000, &[1]))]);
    firmware.config.clear();
    let boot = firmware.boot();
    assert_eq!(boot.status(), Some(BootStatus::Aborted));
    assert_eq!(
        firmware.trace,
        vec![
            BootRequest::InitServices,
            BootRequest::ReadConfigTable,
            BootRequest::Return(BootStatus::Aborted),
        ]
    );
}

#[test]
fn platform_with_one_root_boots() {
    let mut firmware = machine(vec![Some(kernel(0x1000, &[1]))]);
    firmware.config.remove(0);
    let handoff = firmware.boot().into_handoff().ok().unwrap();
    assert_eq!(handoff.platform.acpi_root(), 0x7fe0_0014);
    assert_eq!(handoff.platform.smbios_root(), 0);
}

#[test]
fn allocation_after_capture_is_answered_by_a_new_capture() {
    let mut firmware = machine(vec![Some(kernel(0x1000, &[1]))]);
    firmware.stale_exits = 1;
    let boot = firmware.boot();
    assert_eq!(boot.status(), Some(BootStatus::Success));
    let exits: Vec<usize> = firmware
        .trace
        .iter()
        .filter_map(|r| match r {
            BootRequest::Transition(TransitionRequest::ExitFirmware(key)) => Some(*key),
            _ => None,
        })
        .collect();
    assert_eq!(exits, vec![101, 103]);
    let captures = firmware
        .trace
        .iter()
        .filter(|r| matches!(r, BootRequest::Transition(TransitionRequest::CaptureMap(_))))
        .count();
    assert_eq!(captures, 2);
    // The map handed on is the one of the capture that the exit accepted.
    let handoff = boot.into_handoff().ok().unwrap();
    assert_eq!(handoff.platform.memory_map().unwrap().len(), 5);
}

#[test]
fn map_that_stays_stale_aborts_after_four_attempts() {
    let mut firmware = machine(vec![Some(kernel(0x1000, &[1]))]);
    firmware.stale_exits = u32::MAX;
    let boot = firmware.boot();
    assert_eq!(boot.status(), Some(BootStatus::Aborted));
    let exits = firmware
        .trace
        .iter()
        .filter(|r| matches!(r, BootRequest::Transition(TransitionRequest::ExitFirmware(_))))
        .count();
    assert_eq!(exits, 4);
    assert!(!firmware.services_ended);
    assert_eq!(*firmware.trace.last().unwrap(), BootRequest::Return(BootStatus::Aborted));
}

#[test]
fn three_stale_exits_still_boot() {
    let mut firmware = machine(vec![Some(kernel(0x1000, &[1]))]);
    firmware.stale_exits = 3;
    assert_eq!(firmware.boot().status(), Some(BootStatus::Success));
}

#[test]
fn boot_ignores_reports_that_answer_nothing() {
    let boot = Boot::start().step(BootEvent::Framebuffer(None));
    assert_eq!(boot.request(), BootRequest::InitServices);
    let boot = boot.step(BootEvent::MemoryMap(Vec::new()));
    assert_eq!(boot.request(), BootRequest::InitServices);
    let boot = boot.step(BootEvent::Services(true)).step(BootEvent::Services(false));
    assert_eq!(boot.request(), BootRequest::ReadConfigTable);
    assert_eq!(boot.status(), None);
    assert!(boot.into_handoff().is_err());
}

#[test]
fn memory_map_is_not_taken_before_the_exit() {
    let mut firmware = machine(vec![Some(kernel(0x1000, &[1]))]);
    let mut boot = Boot::start();
    while boot.request() != BootRequest::Transition(TransitionRequest::QueryMapSize) {
        let event = firmware.serve(boot.request());
        boot = boot.step(event);
    }
    let boot = boot.step(BootEvent::MemoryMap(firmware.memory_map.clone()));
    assert_eq!(boot.request(), BootRequest::Transition(TransitionRequest::QueryMapSize));
    let boot = boot.step(BootEvent::Transition(TransitionEvent::Populated));
    assert_eq!(boot.request(), BootRequest::Transition(TransitionRequest::QueryMapSize));
    assert_eq!(boot.status(), None);
}

#[test]
fn failed_attempt_stays_failed() {
    let mut firmware = machine(vec![]);
    let boot = firmware.boot();
    let boot = boot.step(BootEvent::Services(true));
    let boot = boot.step(BootEvent::Locator(LocatorEvent::Attempted(OpenOutcome::Opened)));
    assert_eq!(boot.status(), Some(BootStatus::NotFound));
    assert_eq!(BootError::NotFound.status(), BootStatus::NotFound);
}

#[test]
fn every_failure_kind_is_reported() {
    let good = kernel(0x1000, &[1]);

    let mut firmware = machine(vec![Some(good.clone())]);
    firmware.services = false;
    assert_eq!(firmware.boot().failure(), Some(BootError::ProtocolUnavailable));

    let mut firmware = machine(vec![Some(good.clone())]);
    firmware.config.clear();
    assert_eq!(firmware.boot().failure(), Some(BootError::PlatformUnsupported));

    let mut firmware = machine(vec![None]);
    assert_eq!(firmware.boot().failure(), Some(BootError::NotFound));

    let mut firmware = machine(vec![Some(good[..100].to_vec())]);
    assert_eq!(firmware.boot().failure(), Some(BootError::MalformedImage));

    let mut firmware = machine(vec![Some(good.clone())]);
    firmware.stale_exits = u32::MAX;
    assert_eq!(firmware.boot().failure(), Some(BootError::TransitionFatal));

    let mut firmware = machine(vec![Some(good.clone())]);
    assert_eq!(firmware.boot().failure(), None);
}

/// A boot attempt that has opened the kernel file and waits for the answer
/// to its first metadata call.
fn at_the_reader() -> Boot {
    let mut firmware = machine(vec![Some(kernel(0x1000, &[1]))]);
    let mut boot = Boot::start();
    while boot.request() != BootRequest::Reader(ReaderRequest::ProbeInfo) {
        let event = firmware.serve(boot.request());
        boot = boot.step(event);
    }
    boot
}

#[test]
fn reader_failures_end_the_attempt() {
    let boot = at_the_reader().step(BootEvent::Reader(ReaderEvent::Info(QueryReply::Failed)));
    assert_eq!(boot.failure(), Some(BootError::SizeUnavailable));
    assert_eq!(boot.status(), Some(BootStatus::Aborted));

    let boot = at_the_reader()
        .step(BootEvent::Reader(ReaderEvent::Info(QueryReply::TooSmall(Some(96)))))
        .step(BootEvent::Reader(ReaderEvent::Info(QueryReply::Complete(0x3000))))
        .step(BootEvent::Reader(ReaderEvent::Read { buffer: vec![0; 0x3000], count: Some(0x2fff) }));
    assert_eq!(boot.failure(), Some(BootError::IOFailure));
    assert_eq!(boot.status(), Some(BootStatus::Aborted));
}

#[test]
fn missing_map_size_ends_the_attempt() {
    let mut firmware = machine(vec![Some(kernel(0x1000, &[1]))]);
    let mut boot = Boot::start();
    while boot.request() != BootRequest::Transition(TransitionRequest::QueryMapSize) {
        let event = firmware.serve(boot.request());
        boot = boot.step(event);
    }
    let failed = boot.step(BootEvent::Transition(TransitionEvent::Sized(None)));
    assert_eq!(failed.failure(), Some(BootError::SizeUnavailable));
    assert_eq!(failed.request(), BootRequest::Return(BootStatus::Aborted));
}
