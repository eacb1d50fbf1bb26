//! The whole boot attempt, from firmware entry to control transfer.
//!
//! The stages follow one another in a fixed order: firmware services are
//! brought up, the platform description is assembled, the kernel's volume is
//! found, the kernel file is read and parsed, and firmware services are
//! left. The first failure ends the attempt. The driver performs what is
//! requested and reports what came of it; it decides nothing.

use crate::elf::{image_of, image_valid, parse_image, ImageView, ParsedImage};
use crate::error::{BootError, BootStatus};
use crate::locator::{LocatorEvent, LocatorRequest, OpenOutcome, VolumeLocator};
use crate::platform::{
    acpi2_guid, platform_supported, root_pointer, scan_config_table, smbios3_guid, ConfigEntry,
    FramebufferInfo, MemoryRegionDescriptor, PlatformDescription, PlatformView, RootPointers,
};
use crate::query::{QueryReply, TwoPhaseQuery};
use crate::reader::{ImageReader, KernelImageBuffer, ReaderEvent, ReaderRequest, ReaderView};
use crate::transition::{
    capture_buffer_spec, CaptureOutcome, ExitOutcome, ExitTransition, MapSize, TransitionEvent,
    TransitionRequest,
};
use vstd::prelude::*;

verus! {

/// What the driver is to do next.
#[derive(Clone, Copy, Debug, PartialEq, Eq, Structural)]
pub enum BootRequest {
    /// Bring up the firmware services the loader itself runs on.
    InitServices,
    /// Read firmware's configuration table.
    ReadConfigTable,
    /// Look for a graphics output and read its current mode.
    LocateFramebuffer,
    /// Serve the volume locator.
    Locator(LocatorRequest),
    /// Serve the reader of the kernel file that the locator opened.
    Reader(ReaderRequest),
    /// Serve the firmware exit.
    Transition(TransitionRequest),
    /// Jump to the kernel at this address, with the platform description.
    TransferControl(u64),
    /// Return this status to firmware: the boot attempt failed.
    Return(BootStatus),
}

/// What the driver reports back.
#[derive(Debug)]
pub enum BootEvent {
    /// Whether firmware services came up.
    Services(bool),
    /// The entries of the configuration table, in table order.
    ConfigTable(Vec<ConfigEntry>),
    /// The framebuffer, if a graphics output was found.
    Framebuffer(Option<FramebufferInfo>),
    /// What came of a request of the volume locator.
    Locator(LocatorEvent),
    /// What came of a request of the reader.
    Reader(ReaderEvent),
    /// What came of a request of the firmware exit.
    Transition(TransitionEvent),
    /// The memory map captured for the exit that succeeded, in map order.
    MemoryMap(Vec<MemoryRegionDescriptor>),
}

/// Progress of a boot attempt, as plain values.
pub enum BootView {
    /// Firmware services are being brought up.
    Starting,
    /// The configuration table is being read.
    Config,
    /// The root pointers are known; the framebuffer is being looked for.
    Framebuffer(RootPointers),
    /// The kernel's volume is being searched for.
    Locating { platform: PlatformView, locator: VolumeLocator },
    /// The kernel file, open on `volume`, is being read.
    Reading { platform: PlatformView, volume: usize, reader: ReaderView },
    /// The kernel is parsed; firmware services are being left.
    Exiting { platform: PlatformView, image: ImageView, kernel: Seq<u8>, transition: ExitTransition },
    /// Firmware services have ended and the description is final: control
    /// is to be transferred.
    Ready { platform: PlatformView, image: ImageView, kernel: Seq<u8> },
    /// The attempt failed.
    Failed(BootError),
}

impl BootView {
    /// What the driver is asked to do in this state.
    pub open spec fn request(self) -> BootRequest {
        match self {
            BootView::Starting => BootRequest::InitServices,
            BootView::Config => BootRequest::ReadConfigTable,
            BootView::Framebuffer(_) => BootRequest::LocateFramebuffer,
            BootView::Locating { platform, locator } => BootRequest::Locator(
                locator.request_spec(),
            ),
            BootView::Reading { platform, volume, reader } => BootRequest::Reader(reader.request()),
            BootView::Exiting { platform, image, kernel, transition } => BootRequest::Transition(
                transition.request_spec(),
            ),
            BootView::Ready { platform, image, kernel } => BootRequest::TransferControl(
                image.entry,
            ),
            BootView::Failed(e) => BootRequest::Return(e.status_spec()),
        }
    }

    /// The status the attempt ends with, once it has ended.
    pub open spec fn status(self) -> Option<BootStatus> {
        match self {
            BootView::Ready { platform, image, kernel } => Some(BootStatus::Success),
            BootView::Failed(e) => Some(e.status_spec()),
            _ => None,
        }
    }

    /// Why the attempt failed, if it did.
    pub open spec fn failure(self) -> Option<BootError> {
        match self {
            BootView::Failed(e) => Some(e),
            _ => None,
        }
    }

    /// The attempt after firmware services came up or failed to.
    pub open spec fn after_services(ready: bool) -> BootView {
        if ready {
            BootView::Config
        } else {
            BootView::Failed(BootError::ProtocolUnavailable)
        }
    }

    /// The attempt after the configuration table was read: a platform with
    /// neither root pointer is given up before anything else is looked for.
    pub open spec fn after_config(entries: Seq<ConfigEntry>) -> BootView {
        if platform_supported(entries) {
            BootView::Framebuffer(
                RootPointers {
                    acpi: root_pointer(entries, acpi2_guid()),
                    smbios: root_pointer(entries, smbios3_guid()),
                },
            )
        } else {
            BootView::Failed(BootError::PlatformUnsupported)
        }
    }

    /// The attempt after the framebuffer was looked for. Finding none is no
    /// failure.
    pub open spec fn after_framebuffer(
        roots: RootPointers,
        framebuffer: Option<FramebufferInfo>,
    ) -> BootView {
        if roots.acpi != 0 || roots.smbios != 0 {
            BootView::Locating {
                platform: PlatformView {
                    acpi_root: roots.acpi,
                    smbios_root: roots.smbios,
                    framebuffer,
                    memory_map: Seq::empty(),
                    finalized: false,
                },
                locator: VolumeLocator::Enumerating(TwoPhaseQuery::Probing),
            }
        } else {
            BootView::Failed(BootError::PlatformUnsupported)
        }
    }

    /// The attempt after the locator moved to `locator`.
    pub open spec fn after_locator(platform: PlatformView, locator: VolumeLocator) -> BootView {
        match locator {
            VolumeLocator::Found(volume) => BootView::Reading {
                platform,
                volume,
                reader: ReaderView::Sizing(TwoPhaseQuery::Probing),
            },
            VolumeLocator::NotFound => BootView::Failed(BootError::NotFound),
            _ => BootView::Locating { platform, locator },
        }
    }

    /// The attempt after the reader moved to `reader`. A file that is in
    /// memory is parsed at once.
    pub open spec fn after_reader(
        platform: PlatformView,
        volume: usize,
        reader: ReaderView,
    ) -> BootView {
        match reader {
            ReaderView::Loaded(bytes) => if image_valid(bytes) {
                BootView::Exiting {
                    platform,
                    image: image_of(bytes),
                    kernel: bytes,
                    transition: ExitTransition::Preparing { attempt: 1, buffer: None },
                }
            } else {
                BootView::Failed(BootError::MalformedImage)
            },
            ReaderView::Failed(e) => BootView::Failed(e),
            _ => BootView::Reading { platform, volume, reader },
        }
    }

    /// The state after the driver reported `event`. A report that does not
    /// answer the outstanding request changes nothing. The request to
    /// populate the memory map is answered by the map itself, not by the
    /// exit's own `Populated` report.
    pub open spec fn step(self, event: BootEvent) -> BootView {
        match (self, event) {
            (BootView::Starting, BootEvent::Services(ready)) => Self::after_services(ready),
            (BootView::Config, BootEvent::ConfigTable(entries)) => Self::after_config(entries@),
            (BootView::Framebuffer(roots), BootEvent::Framebuffer(framebuffer)) => {
                Self::after_framebuffer(roots, framebuffer)
            },
            (BootView::Locating { platform, locator }, BootEvent::Locator(report)) => {
                Self::after_locator(platform, locator.step_spec(report))
            },
            (BootView::Reading { platform, volume, reader }, BootEvent::Reader(report)) => {
                Self::after_reader(platform, volume, reader.step(report))
            },
            (
                BootView::Exiting { platform, image, kernel, transition },
                BootEvent::Transition(report),
            ) => {
                if report == TransitionEvent::Populated {
                    self
                } else {
                    match transition.step_spec(report) {
                        ExitTransition::Aborted(e) => BootView::Failed(e),
                        next => BootView::Exiting { platform, image, kernel, transition: next },
                    }
                }
            },
            (
                BootView::Exiting { platform, image, kernel, transition },
                BootEvent::MemoryMap(map),
            ) => {
                if transition == ExitTransition::Exited {
                    BootView::Ready { platform: platform.finalize(map@), image, kernel }
                } else {
                    self
                }
            },
            _ => self,
        }
    }
}

#[derive(Debug)]
enum Stage {
    Starting,
    Config,
    Framebuffer(RootPointers),
    Locating { platform: PlatformDescription, locator: VolumeLocator },
    Reading { platform: PlatformDescription, volume: usize, reader: ImageReader },
    Exiting {
        platform: PlatformDescription,
        image: ParsedImage,
        kernel: KernelImageBuffer,
        transition: ExitTransition,
    },
    Ready { platform: PlatformDescription, image: ParsedImage, kernel: KernelImageBuffer },
    Failed(BootError),
}

/// A boot attempt.
#[derive(Debug)]
pub struct Boot {
    stage: Stage,
}

/// What the kernel is started with: a final platform description, and the
/// kernel file together with the segments that were parsed from it.
#[derive(Debug)]
pub struct Handoff {
    /// Address to jump to.
    pub entry: u64,
    /// The final platform description.
    pub platform: PlatformDescription,
    /// The kernel's loadable segments.
    pub image: ParsedImage,
    /// The kernel file's contents, which the segments refer to.
    pub kernel: KernelImageBuffer,
}

impl View for Boot {
    type V = BootView;

    closed spec fn view(&self) -> BootView {
        match self.stage {
            Stage::Starting => BootView::Starting,
            Stage::Config => BootView::Config,
            Stage::Framebuffer(roots) => BootView::Framebuffer(roots),
            Stage::Locating { platform, locator } => BootView::Locating {
                platform: platform@,
                locator,
            },
            Stage::Reading { platform, volume, reader } => BootView::Reading {
                platform: platform@,
                volume,
                reader: reader@,
            },
            Stage::Exiting { platform, image, kernel, transition } => BootView::Exiting {
                platform: platform@,
                image: image@,
                kernel: kernel@,
                transition,
            },
            Stage::Ready { platform, image, kernel } => BootView::Ready {
                platform: platform@,
                image: image@,
                kernel: kernel@,
            },
            Stage::Failed(e) => BootView::Failed(e),
        }
    }
}

impl Boot {
    #[verifier::type_invariant]
    spec fn inv(&self) -> bool {
        match self.stage {
            Stage::Locating { platform, locator } => !platform@.finalized,
            Stage::Reading { platform, volume, reader } => !platform@.finalized,
            Stage::Exiting { platform, image, kernel, transition } => {
                &&& !platform@.finalized
                &&& image_valid(kernel@)
                &&& image@ == image_of(kernel@)
            },
            Stage::Ready { platform, image, kernel } => {
                &&& platform@.finalized
                &&& image_valid(kernel@)
                &&& image@ == image_of(kernel@)
            },
            _ => true,
        }
    }

    /// The state a boot attempt starts in.
    pub fn start() -> (boot: Self)
        ensures
            boot@ == BootView::Starting,
    {
        Boot { stage: Stage::Starting }
    }

    /// What the driver is to do next.
    pub fn request(&self) -> (request: BootRequest)
        ensures
            request == self@.request(),
    {
        match &self.stage {
            Stage::Starting => BootRequest::InitServices,
            Stage::Config => BootRequest::ReadConfigTable,
            Stage::Framebuffer(_) => BootRequest::LocateFramebuffer,
            Stage::Locating { platform: _, locator } => BootRequest::Locator(locator.request()),
            Stage::Reading { platform: _, volume: _, reader } => BootRequest::Reader(
                reader.request(),
            ),
            Stage::Exiting { platform: _, image: _, kernel: _, transition } => {
                BootRequest::Transition(transition.request())
            },
            Stage::Ready { platform: _, image, kernel: _ } => BootRequest::TransferControl(
                image.entry(),
            ),
            Stage::Failed(e) => BootRequest::Return(e.status()),
        }
    }

    /// The status the attempt ends with; `None` while it is under way.
    pub fn status(&self) -> (status: Option<BootStatus>)
        ensures
            status == self@.status(),
    {
        match &self.stage {
            Stage::Ready { platform: _, image: _, kernel: _ } => Some(BootStatus::Success),
            Stage::Failed(e) => Some(e.status()),
            _ => None,
        }
    }

    /// Why the attempt failed; `None` while it is under way and after it
    /// succeeded.
    pub fn failure(&self) -> (failure: Option<BootError>)
        ensures
            failure == self@.failure(),
    {
        match &self.stage {
            Stage::Failed(e) => Some(*e),
            _ => None,
        }
    }

    /// Takes the driver's report.
    pub fn step(self, event: BootEvent) -> (next: Self)
        ensures
            next@ == self@.step(event),
    {
        proof {
            use_type_invariant(&self);
        }
        match self.stage {
            Stage::Starting => match event {
                BootEvent::Services(ready) => {
                    if ready {
                        Boot { stage: Stage::Config }
                    } else {
                        Boot { stage: Stage::Failed(BootError::ProtocolUnavailable) }
                    }
                },
                _ => Boot { stage: Stage::Starting },
            },
            Stage::Config => match event {
                BootEvent::ConfigTable(entries) => {
                    let roots = scan_config_table(entries.as_slice());
                    if roots.acpi != 0 || roots.smbios != 0 {
                        Boot { stage: Stage::Framebuffer(roots) }
                    } else {
                        Boot { stage: Stage::Failed(BootError::PlatformUnsupported) }
                    }
                },
                _ => Boot { stage: Stage::Config },
            },
            Stage::Framebuffer(roots) => match event {
                BootEvent::Framebuffer(framebuffer) => {
                    match PlatformDescription::from_roots(roots, framebuffer) {
                        Ok(platform) => Boot {
                            stage: Stage::Locating { platform, locator: VolumeLocator::start() },
                        },
                        Err(e) => Boot { stage: Stage::Failed(e) },
                    }
                },
                _ => Boot { stage: Stage::Framebuffer(roots) },
            },
            Stage::Locating { platform, locator } => match event {
                BootEvent::Locator(report) => {
                    match locator.step(report) {
                        VolumeLocator::Found(volume) => Boot {
                            stage: Stage::Reading { platform, volume, reader: ImageReader::start() },
                        },
                        VolumeLocator::NotFound => Boot {
                            stage: Stage::Failed(BootError::NotFound),
                        },
                        pending => Boot { stage: Stage::Locating { platform, locator: pending } },
                    }
                },
                _ => Boot { stage: Stage::Locating { platform, locator } },
            },
            Stage::Reading { platform, volume, reader } => match event {
                BootEvent::Reader(report) => {
                    match reader.step(report) {
                        ImageReader::Loaded(kernel) => {
                            match parse_image(kernel.as_slice()) {
                                Ok(image) => Boot {
                                    stage: Stage::Exiting {
                                        platform,
                                        image,
                                        kernel,
                                        transition: ExitTransition::start(),
                                    },
                                },
                                Err(e) => Boot { stage: Stage::Failed(e) },
                            }
                        },
                        ImageReader::Failed(e) => Boot { stage: Stage::Failed(e) },
                        pending => Boot {
                            stage: Stage::Reading { platform, volume, reader: pending },
                        },
                    }
                },
                _ => Boot { stage: Stage::Reading { platform, volume, reader } },
            },
            Stage::Exiting { platform, image, kernel, transition } => match event {
                BootEvent::Transition(TransitionEvent::Populated) => Boot {
                    stage: Stage::Exiting { platform, image, kernel, transition },
                },
                BootEvent::Transition(report) => {
                    match transition.step(report) {
                        ExitTransition::Aborted(e) => Boot { stage: Stage::Failed(e) },
                        next => Boot {
                            stage: Stage::Exiting { platform, image, kernel, transition: next },
                        },
                    }
                },
                BootEvent::MemoryMap(map) => {
                    match transition {
                        ExitTransition::Exited => Boot {
                            stage: Stage::Ready { platform: platform.finalize(map), image, kernel },
                        },
                        _ => Boot { stage: Stage::Exiting { platform, image, kernel, transition } },
                    }
                },
                _ => Boot { stage: Stage::Exiting { platform, image, kernel, transition } },
            },
            Stage::Ready { platform, image, kernel } => Boot {
                stage: Stage::Ready { platform, image, kernel },
            },
            Stage::Failed(e) => Boot { stage: Stage::Failed(e) },
        }
    }

    /// Hands out what the kernel is started with, once control is to be
    /// transferred. Before that, and after a failure, the attempt is handed
    /// back as it is.
    pub fn into_handoff(self) -> (handoff: Result<Handoff, Self>)
        ensures
            match handoff {
                Ok(h) => self@ == (BootView::Ready {
                    platform: h.platform@,
                    image: h.image@,
                    kernel: h.kernel@,
                }) && h.entry == h.image@.entry && h.platform@.finalized && image_valid(h.kernel@)
                    && h.image@ == image_of(h.kernel@),
                Err(boot) => boot@ == self@ && !(self@ is Ready),
            },
    {
        proof {
            use_type_invariant(&self);
        }
        match self.stage {
            Stage::Ready { platform, image, kernel } => Ok(
                Handoff { entry: image.entry(), platform, image, kernel },
            ),
            stage => Err(Boot { stage }),
        }
    }
}

/// An attempt that has ended stays ended: neither a failure nor a completed
/// handoff is changed by anything reported afterwards.
pub proof fn lemma_ends_are_final(state: BootView, event: BootEvent)
    requires
        state is Failed || state is Ready,
    ensures
        state.step(event) == state,
        state.status() is Some,
{
}

/// The stages follow one another in order: each is entered only from the one
/// before it, the firmware exit only with a parsed kernel in memory, and the
/// handoff only once firmware services have ended.
pub proof fn lemma_stage_order(state: BootView, event: BootEvent)
    ensures
        state.step(event) is Config && !(state is Config) ==> state is Starting,
        state.step(event) is Framebuffer && !(state is Framebuffer) ==> state is Config,
        state.step(event) is Locating && !(state is Locating) ==> state is Framebuffer,
        state.step(event) is Reading && !(state is Reading) ==> state is Locating,
        state.step(event) is Exiting && !(state is Exiting) ==> state is Reading,
        state.step(event) is Ready && !(state is Ready) ==> state is Exiting
            && state->Exiting_transition == ExitTransition::Exited,
        state.step(event) is Starting ==> state is Starting,
{
}

/// The platform description the kernel is handed is final and holds the
/// memory map captured for the exit that succeeded; until then the
/// description is requested from nobody.
pub proof fn lemma_handoff_is_final(state: BootView, map: Vec<MemoryRegionDescriptor>)
    requires
        state is Exiting,
        state->Exiting_transition == ExitTransition::Exited,
    ensures
        state.request() == BootRequest::Transition(TransitionRequest::PopulateMap),
        state.step(BootEvent::MemoryMap(map)) matches BootView::Ready { platform, image, kernel }
            && platform.finalized && image == state->Exiting_image && kernel
            == state->Exiting_kernel && (!state->Exiting_platform.finalized ==> platform.memory_map
            == map@) && state.step(BootEvent::MemoryMap(map)).request()
            == BootRequest::TransferControl(image.entry),
{
}

/// How an attempt that failed answers firmware: with the status of the
/// failure, which is `NotFound` for a kernel that was not found and
/// `Aborted` for everything else.
pub proof fn lemma_failure_status(e: BootError)
    ensures
        BootView::Failed(e).request() == BootRequest::Return(e.status_spec()),
        BootView::Failed(e).status() == Some(e.status_spec()),
        e == BootError::NotFound ==> BootView::Failed(e).request() == BootRequest::Return(
            BootStatus::NotFound,
        ),
        e != BootError::NotFound ==> BootView::Failed(e).request() == BootRequest::Return(
            BootStatus::Aborted,
        ),
{
}

/// A kernel file whose contents are not an image the loader accepts ends the
/// attempt with `MalformedImage`, before anything is asked of the firmware
/// exit.
pub proof fn lemma_malformed_image_aborts(
    platform: PlatformView,
    volume: usize,
    size: usize,
    buffer: Vec<u8>,
)
    requires
        buffer@.len() == size,
        !image_valid(buffer@),
    ensures
        (BootView::Reading { platform, volume, reader: ReaderView::Reading(size) }).step(
            BootEvent::Reader(ReaderEvent::Read { buffer, count: Some(size) }),
        ) == BootView::Failed(BootError::MalformedImage),
        BootView::Failed(BootError::MalformedImage).request() == BootRequest::Return(
            BootStatus::Aborted,
        ),
{
}

/// Without a volume to look at there is no kernel: an enumeration that
/// fails, or that lists nothing, ends the attempt with `NotFound`, which is
/// the status firmware is answered with.
pub proof fn lemma_no_volumes_is_not_found(platform: PlatformView, fetch: usize)
    ensures
        (BootView::Locating {
            platform,
            locator: VolumeLocator::Enumerating(TwoPhaseQuery::Probing),
        }).step(BootEvent::Locator(LocatorEvent::Enumerated(QueryReply::Failed)))
            == BootView::Failed(BootError::NotFound),
        (BootView::Locating {
            platform,
            locator: VolumeLocator::Enumerating(TwoPhaseQuery::Probing),
        }).step(BootEvent::Locator(LocatorEvent::Enumerated(QueryReply::TooSmall(Some(0)))))
            == BootView::Failed(BootError::NotFound),
        (BootView::Locating {
            platform,
            locator: VolumeLocator::Enumerating(TwoPhaseQuery::Fetching(fetch)),
        }).step(BootEvent::Locator(LocatorEvent::Enumerated(QueryReply::Complete(0))))
            == BootView::Failed(BootError::NotFound),
        BootView::Failed(BootError::NotFound).request() == BootRequest::Return(
            BootStatus::NotFound,
        ),
{
}

/// The reports of a firmware on which nothing goes wrong, in the order the
/// requests are made: services come up, the configuration table is read, the
/// framebuffer is looked for, the volumes are counted and listed, the first
/// volume opens, the file's metadata is sized and fetched, the file is read,
/// the memory map is sized and captured, firmware exits, the map is handed
/// over.
pub open spec fn clean_run(
    entries: Vec<ConfigEntry>,
    framebuffer: Option<FramebufferInfo>,
    volumes: usize,
    info_size: usize,
    kernel: Vec<u8>,
    size: MapSize,
    key: usize,
    map: Vec<MemoryRegionDescriptor>,
) -> Seq<BootEvent> {
    seq![
        BootEvent::Services(true),
        BootEvent::ConfigTable(entries),
        BootEvent::Framebuffer(framebuffer),
        BootEvent::Locator(LocatorEvent::Enumerated(QueryReply::TooSmall(Some(volumes)))),
        BootEvent::Locator(LocatorEvent::Enumerated(QueryReply::Complete(volumes))),
        BootEvent::Locator(LocatorEvent::Attempted(OpenOutcome::Opened)),
        BootEvent::Reader(ReaderEvent::Info(QueryReply::TooSmall(Some(info_size)))),
        BootEvent::Reader(ReaderEvent::Info(QueryReply::Complete(kernel@.len() as u64))),
        BootEvent::Reader(ReaderEvent::Read { buffer: kernel, count: Some(kernel@.len() as usize) }),
        BootEvent::Transition(TransitionEvent::Sized(Some(size))),
        BootEvent::Transition(TransitionEvent::Capture(CaptureOutcome::Captured(key))),
        BootEvent::Transition(TransitionEvent::Exit(ExitOutcome::Exited)),
        BootEvent::MemoryMap(map),
    ]
}

impl BootView {
    /// The state after the first `n` of the reports `events`, taken in turn.
    pub open spec fn run(self, events: Seq<BootEvent>, n: nat) -> BootView
        decreases n,
    {
        if n == 0 {
            self
        } else {
            self.run(events, (n - 1) as nat).step(events[n - 1])
        }
    }
}

/// One more report extends a run by one step.
proof fn lemma_run_step(start: BootView, events: Seq<BootEvent>, n: nat, event: BootEvent)
    requires
        n < events.len(),
        events[n as int] == event,
    ensures
        start.run(events, n + 1) == start.run(events, n).step(event),
{
}

proof fn lemma_clean_run_platform(
    events: Seq<BootEvent>,
    entries: Vec<ConfigEntry>,
    framebuffer: Option<FramebufferInfo>,
)
    requires
        events.len() == 13,
        events[0] == BootEvent::Services(true),
        events[1] == BootEvent::ConfigTable(entries),
        events[2] == BootEvent::Framebuffer(framebuffer),
        platform_supported(entries@),
    ensures
        BootView::Starting.run(events, 3) == (BootView::Locating {
            platform: PlatformView {
                acpi_root: root_pointer(entries@, acpi2_guid()),
                smbios_root: root_pointer(entries@, smbios3_guid()),
                framebuffer,
                memory_map: Seq::empty(),
                finalized: false,
            },
            locator: VolumeLocator::Enumerating(TwoPhaseQuery::Probing),
        }),
{
    let start = BootView::Starting;
    assert(start.run(events, 0) == start);
    lemma_run_step(start, events, 0, BootEvent::Services(true));
    lemma_run_step(start, events, 1, BootEvent::ConfigTable(entries));
    lemma_run_step(start, events, 2, BootEvent::Framebuffer(framebuffer));
}

proof fn lemma_clean_run_locator(events: Seq<BootEvent>, platform: PlatformView, volumes: usize)
    requires
        events.len() == 13,
        events[3] == BootEvent::Locator(
            LocatorEvent::Enumerated(QueryReply::TooSmall(Some(volumes))),
        ),
        events[4] == BootEvent::Locator(LocatorEvent::Enumerated(QueryReply::Complete(volumes))),
        events[5] == BootEvent::Locator(LocatorEvent::Attempted(OpenOutcome::Opened)),
        volumes > 0,
        BootView::Starting.run(events, 3) == (BootView::Locating {
            platform,
            locator: VolumeLocator::Enumerating(TwoPhaseQuery::Probing),
        }),
    ensures
        BootView::Starting.run(events, 6) == (BootView::Reading {
            platform,
            volume: 0,
            reader: ReaderView::Sizing(TwoPhaseQuery::Probing),
        }),
{
    let start = BootView::Starting;
    lemma_run_step(start, events, 3, events[3]);
    lemma_run_step(start, events, 4, events[4]);
    lemma_run_step(start, events, 5, events[5]);
    assert(start.run(events, 4) == (BootView::Locating {
        platform,
        locator: VolumeLocator::Enumerating(TwoPhaseQuery::Fetching(volumes)),
    }));
    assert(start.run(events, 5) == (BootView::Locating {
        platform,
        locator: VolumeLocator::Trying { count: volumes, next: 0 },
    }));
}

proof fn lemma_clean_run_reader(
    events: Seq<BootEvent>,
    platform: PlatformView,
    info_size: usize,
    kernel: Vec<u8>,
)
    requires
        events.len() == 13,
        events[6] == BootEvent::Reader(ReaderEvent::Info(QueryReply::TooSmall(Some(info_size)))),
        events[7] == BootEvent::Reader(
            ReaderEvent::Info(QueryReply::Complete(kernel@.len() as u64)),
        ),
        events[8] == BootEvent::Reader(
            ReaderEvent::Read { buffer: kernel, count: Some(kernel@.len() as usize) },
        ),
        info_size > 0,
        image_valid(kernel@),
        kernel@.len() <= usize::MAX,
        BootView::Starting.run(events, 6) == (BootView::Reading {
            platform,
            volume: 0,
            reader: ReaderView::Sizing(TwoPhaseQuery::Probing),
        }),
    ensures
        BootView::Starting.run(events, 9) == (BootView::Exiting {
            platform,
            image: image_of(kernel@),
            kernel: kernel@,
            transition: ExitTransition::Preparing { attempt: 1, buffer: None },
        }),
{
    let start = BootView::Starting;
    let len = kernel@.len() as usize;
    lemma_run_step(start, events, 6, events[6]);
    lemma_run_step(start, events, 7, events[7]);
    lemma_run_step(start, events, 8, events[8]);
    assert(start.run(events, 7) == (BootView::Reading {
        platform,
        volume: 0,
        reader: ReaderView::Sizing(TwoPhaseQuery::Fetching(info_size)),
    }));
    assert(start.run(events, 8) == (BootView::Reading {
        platform,
        volume: 0,
        reader: ReaderView::Reading(len),
    }));
}

proof fn lemma_clean_run_exit(
    events: Seq<BootEvent>,
    platform: PlatformView,
    image: ImageView,
    kernel: Seq<u8>,
    size: MapSize,
    key: usize,
    map: Vec<MemoryRegionDescriptor>,
)
    requires
        events.len() == 13,
        events[9] == BootEvent::Transition(TransitionEvent::Sized(Some(size))),
        events[10] == BootEvent::Transition(
            TransitionEvent::Capture(CaptureOutcome::Captured(key)),
        ),
        events[11] == BootEvent::Transition(TransitionEvent::Exit(ExitOutcome::Exited)),
        events[12] == BootEvent::MemoryMap(map),
        capture_buffer_spec(size) is Some,
        !platform.finalized,
        BootView::Starting.run(events, 9) == (BootView::Exiting {
            platform,
            image,
            kernel,
            transition: ExitTransition::Preparing { attempt: 1, buffer: None },
        }),
    ensures
        BootView::Starting.run(events, 13) == (BootView::Ready {
            platform: PlatformView { memory_map: map@, finalized: true, ..platform },
            image,
            kernel,
        }),
{
    let start = BootView::Starting;
    lemma_run_step(start, events, 9, events[9]);
    lemma_run_step(start, events, 10, events[10]);
    lemma_run_step(start, events, 11, events[11]);
    lemma_run_step(start, events, 12, events[12]);
    assert(start.run(events, 10) == (BootView::Exiting {
        platform,
        image,
        kernel,
        transition: ExitTransition::Preparing { attempt: 1, buffer: capture_buffer_spec(size) },
    }));
    assert(start.run(events, 11) == (BootView::Exiting {
        platform,
        image,
        kernel,
        transition: ExitTransition::MapCaptured { attempt: 1, key },
    }));
    assert(start.run(events, 12) == (BootView::Exiting {
        platform,
        image,
        kernel,
        transition: ExitTransition::Exited,
    }));
}

/// On a firmware on which nothing goes wrong, a supported platform with a
/// well-formed kernel on its first volume is booted: the attempt ends ready
/// to transfer control to the kernel's entry point, with the kernel's
/// segments, the root pointers of the configuration table, the framebuffer
/// as it was found or not found, and the very memory map that was handed
/// over, marked final.
pub proof fn lemma_clean_run_boots(
    entries: Vec<ConfigEntry>,
    framebuffer: Option<FramebufferInfo>,
    volumes: usize,
    info_size: usize,
    kernel: Vec<u8>,
    size: MapSize,
    key: usize,
    map: Vec<MemoryRegionDescriptor>,
)
    requires
        platform_supported(entries@),
        volumes > 0,
        info_size > 0,
        image_valid(kernel@),
        kernel@.len() <= usize::MAX,
        capture_buffer_spec(size) is Some,
    ensures
        BootView::Starting.run(
            clean_run(entries, framebuffer, volumes, info_size, kernel, size, key, map),
            13,
        ) == (BootView::Ready {
            platform: PlatformView {
                acpi_root: root_pointer(entries@, acpi2_guid()),
                smbios_root: root_pointer(entries@, smbios3_guid()),
                framebuffer,
                memory_map: map@,
                finalized: true,
            },
            image: image_of(kernel@),
            kernel: kernel@,
        }),
        BootView::Starting.run(
            clean_run(entries, framebuffer, volumes, info_size, kernel, size, key, map),
            13,
        ).request() == BootRequest::TransferControl(image_of(kernel@).entry),
{
    let events = clean_run(entries, framebuffer, volumes, info_size, kernel, size, key, map);
    let platform = PlatformView {
        acpi_root: root_pointer(entries@, acpi2_guid()),
        smbios_root: root_pointer(entries@, smbios3_guid()),
        framebuffer,
        memory_map: Seq::empty(),
        finalized: false,
    };
    lemma_clean_run_platform(events, entries, framebuffer);
    lemma_clean_run_locator(events, platform, volumes);
    lemma_clean_run_reader(events, platform, info_size, kernel);
    lemma_clean_run_exit(events, platform, image_of(kernel@), kernel@, size, key, map);
}

} // verus!
