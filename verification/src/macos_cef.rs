//! The macOS producer: one browser surface, painted as retained `IOSurface`s.
//!
//! Its type parameters are what only the platform knows: the callbacks of a
//! [`Page`] and the handle that owns a frame (`H`).
use vstd::prelude::*;
use vstd::string::*;
use crate::capabilities::CefSurfaceMode;
use crate::commands::{BrowserCommand, BrowserLink};
use crate::error::{is_surface_creation, WeldError};
use crate::native_frame::{NativeFrame, PendingFrameSlot};
use crate::page::{settled_all, Page};
use crate::platform::{PhysicalSize, Platform};
use crate::setup::{browser_setup, setup_fault, sets_up, BrowserSetup};
use crate::surface::{is_default_config, CefSurfaceConfig, PopupRect};

verus! {

/// Configuration of the macOS producer.
#[derive(Debug)]
pub struct MacosCefConfig {
    pub surface: CefSurfaceConfig,
}

impl Default for MacosCefConfig {
    fn default() -> (config: Self)
        ensures
            is_default_config(config.surface),
    {
        MacosCefConfig { surface: CefSurfaceConfig::default() }
    }
}

/// One browser surface.
#[derive(Debug)]
pub struct MacosCefProducer<A, P, M, H> {
    /// The browser's identifier. Zero before it is created and after it closes.
    pub browser_id: i32,
    pub size: PhysicalSize,
    pub page: Page<A, P, M>,
    pub frame_slot: PendingFrameSlot<H>,
    pub popup_slot: PendingFrameSlot<H>,
}

impl<A, P, M, H> MacosCefProducer<A, P, M, H> {
    /// Set up a surface, and say how its browser is created. Fails where the
    /// profile cannot be kept where the configuration wants it.
    pub fn new(config: MacosCefConfig, cache_path: &Option<String>) -> (outcome: Result<
        (Self, BrowserSetup),
        WeldError,
    >)
        ensures
            match outcome {
                Err(error) => setup_fault(config.surface, *cache_path, Platform::Macos) matches Some(
                    reason,
                ) && is_surface_creation(error, reason),
                Ok((producer, setup)) => {
                    let surface = config.surface;
                    &&& setup_fault(surface, *cache_path, Platform::Macos) is None
                    &&& sets_up(surface, setup)
                    &&& producer.browser_id == 0
                    &&& producer.size == surface.initial_size
                    &&& producer.page.is_new(surface, Platform::Macos)
                    &&& producer.frame_slot.frame() is None
                    &&& producer.frame_slot.last_generation() == 0
                    &&& producer.popup_slot.frame() is None
                    &&& producer.popup_slot.last_generation() == 0
                },
            },
    {
        let setup: BrowserSetup = match browser_setup(&config.surface, cache_path, Platform::Macos) {
            Ok(setup) => setup,
            Err(error) => {
                return Err(error);
            },
        };
        let producer = MacosCefProducer {
            browser_id: 0,
            size: config.surface.initial_size,
            page: Page::new(config.surface, Platform::Macos),
            frame_slot: PendingFrameSlot::default(),
            popup_slot: PendingFrameSlot::default(),
        };
        Ok((producer, setup))
    }

    /// The browser was created with this identifier, or was not.
    pub fn browser_created(&mut self, browser_id: Option<i32>) -> (outcome: Result<(), WeldError>)
        ensures
            match browser_id {
                Some(id) => outcome is Ok && *final(self) == (MacosCefProducer {
                    browser_id: id,
                    ..*old(self)
                }),
                None => {
                    &&& *final(self) == *old(self)
                    &&& outcome matches Err(error) && is_surface_creation(
                        error,
                        "browser_host_create_browser_sync returned None"@,
                    )
                },
            },
    {
        match browser_id {
            Some(id) => {
                self.browser_id = id;
                Ok(())
            },
            None => Err(
                WeldError::SurfaceCreation(
                    "browser_host_create_browser_sync returned None".to_owned(),
                ),
            ),
        }
    }

    // ── Frames ────────────────────────────────────────────────────────────────

    pub fn surface_mode(&self) -> (mode: CefSurfaceMode)
        ensures
            mode == CefSurfaceMode::AcceleratedPaint,
    {
        CefSurfaceMode::AcceleratedPaint
    }

    /// Take the newest frame, if there is one since the last call.
    pub fn acquire_native_frame(&mut self) -> (frame: Option<NativeFrame<H>>)
        ensures
            frame == old(self).frame_slot.frame(),
            final(self).frame_slot.frame() is None,
            final(self).frame_slot.last_generation() == old(self).frame_slot.last_generation(),
            *final(self) == (MacosCefProducer {
                frame_slot: final(self).frame_slot,
                ..*old(self)
            }),
    {
        self.frame_slot.take()
    }

    /// Take the newest frame of the popup widget and where it goes, if the
    /// popup shows and was painted since the last call. The place is in
    /// device-independent pixels.
    pub fn acquire_popup(&mut self) -> (popup: Option<(NativeFrame<H>, PopupRect)>)
        ensures
            match old(self).page.popup.placement() {
                None => popup is None && *final(self) == *old(self),
                Some(rect) => {
                    &&& popup == match old(self).popup_slot.frame() {
                        Some(frame) => Some((frame, rect)),
                        None => None,
                    }
                    &&& final(self).popup_slot.frame() is None
                    &&& final(self).popup_slot.last_generation()
                        == old(self).popup_slot.last_generation()
                    &&& *final(self) == (MacosCefProducer {
                        popup_slot: final(self).popup_slot,
                        ..*old(self)
                    })
                },
            },
    {
        match self.page.popup.rect_if_visible() {
            None => None,
            Some(rect) => match self.popup_slot.take() {
                Some(frame) => Some((frame, rect)),
                None => None,
            },
        }
    }

    /// Where the popup widget shows, in device-independent pixels.
    pub fn popup_rect(&self) -> (rect: Option<PopupRect>)
        ensures
            rect == self.page.popup.placement(),
    {
        self.page.popup.rect_if_visible()
    }

    /// The view has a new size.
    pub fn resize(&mut self, link: BrowserLink, size: PhysicalSize) -> (commands: Vec<
        BrowserCommand,
    >)
        ensures
            *final(self) == (MacosCefProducer { size, ..*old(self) }),
            commands@ == (if link.host {
                seq![BrowserCommand::WasResized]
            } else {
                Seq::<BrowserCommand>::empty()
            }),
    {
        self.size = size;
        let mut commands: Vec<BrowserCommand> = Vec::new();
        if link.host {
            commands.push(BrowserCommand::WasResized);
        }
        assert(commands@ =~= if link.host {
            seq![BrowserCommand::WasResized]
        } else {
            Seq::<BrowserCommand>::empty()
        });
        commands
    }

    // ── Painting ──────────────────────────────────────────────────────────────

    /// The generation of a frame that is being painted. The popup widget is
    /// painted as its own element and has a slot of its own.
    pub fn next_paint_generation(&mut self, popup: bool) -> (generation: u64)
        requires
            popup ==> old(self).popup_slot.last_generation() < u64::MAX,
            !popup ==> old(self).frame_slot.last_generation() < u64::MAX,
        ensures
            if popup {
                &&& generation == old(self).popup_slot.last_generation() + 1
                &&& final(self).popup_slot.last_generation() == generation
                &&& final(self).popup_slot.frame() == old(self).popup_slot.frame()
                &&& *final(self) == (MacosCefProducer {
                    popup_slot: final(self).popup_slot,
                    ..*old(self)
                })
            } else {
                &&& generation == old(self).frame_slot.last_generation() + 1
                &&& final(self).frame_slot.last_generation() == generation
                &&& final(self).frame_slot.frame() == old(self).frame_slot.frame()
                &&& *final(self) == (MacosCefProducer {
                    frame_slot: final(self).frame_slot,
                    ..*old(self)
                })
            },
    {
        if popup {
            self.popup_slot.next_generation()
        } else {
            self.frame_slot.next_generation()
        }
    }

    /// A frame was painted. It replaces the one before it.
    pub fn on_accelerated_paint(&mut self, popup: bool, frame: NativeFrame<H>)
        ensures
            if popup {
                &&& final(self).popup_slot.frame() == Some(frame)
                &&& final(self).popup_slot.last_generation()
                    == old(self).popup_slot.last_generation()
                &&& *final(self) == (MacosCefProducer {
                    popup_slot: final(self).popup_slot,
                    ..*old(self)
                })
            } else {
                &&& final(self).frame_slot.frame() == Some(frame)
                &&& final(self).frame_slot.last_generation()
                    == old(self).frame_slot.last_generation()
                &&& *final(self) == (MacosCefProducer {
                    frame_slot: final(self).frame_slot,
                    ..*old(self)
                })
            },
    {
        if popup {
            self.popup_slot.store(frame);
        } else {
            self.frame_slot.store(frame);
        }
    }

    /// The popup widget is shown or hidden. A hidden popup loses its frame.
    pub fn on_popup_show(&mut self, show: bool)
        ensures
            final(self).page.popup.shown() == show,
            final(self).page.popup.rect() == old(self).page.popup.rect(),
            final(self).popup_slot.frame() == (if show {
                old(self).popup_slot.frame()
            } else {
                None
            }),
            final(self).popup_slot.last_generation() == old(self).popup_slot.last_generation(),
            *final(self) == (MacosCefProducer {
                page: Page { popup: final(self).page.popup, ..old(self).page },
                popup_slot: final(self).popup_slot,
                ..*old(self)
            }),
    {
        self.page.popup.on_popup_show(&mut self.popup_slot, show);
    }

    // ── The end ───────────────────────────────────────────────────────────────

    pub fn browser_id(&self) -> (id: i32)
        ensures
            id == self.browser_id,
    {
        self.browser_id
    }

    /// Close the browser. Whatever is in flight is settled: scripts in the order
    /// in which they were accepted, then the cookie read.
    pub fn close(&mut self, link: BrowserLink) -> (commands: Vec<BrowserCommand>)
        requires
            old(self).page.well_formed(),
        ensures
            final(self).page.well_formed(),
            *final(self) == (MacosCefProducer { browser_id: 0, page: final(self).page, ..*old(self) }),
            settled_all(old(self).page, final(self).page, "browser closed"@),
            commands@ == (if link.host {
                seq![BrowserCommand::CloseBrowser { force: true }]
            } else {
                Seq::<BrowserCommand>::empty()
            }),
    {
        self.page.settle_all("browser closed");
        let mut commands: Vec<BrowserCommand> = Vec::new();
        if link.host {
            commands.push(BrowserCommand::CloseBrowser { force: true });
        }
        assert(commands@ =~= if link.host {
            seq![BrowserCommand::CloseBrowser { force: true }]
        } else {
            Seq::<BrowserCommand>::empty()
        });
        self.browser_id = 0;
        commands
    }
}

/// What is painted for the view and what is painted for the popup are kept apart, and
/// the latest of each is taken once. A popup is taken only while it has a place, and
/// with it.
pub proof fn law_painted_frames_are_kept_apart<A, P, M, H>(
    frame: NativeFrame<H>,
    popup: bool,
    show: bool,
)
    ensures
        forall|producer: &mut MacosCefProducer<A, P, M, H>| #[trigger]
            call_ensures(
                MacosCefProducer::<A, P, M, H>::on_accelerated_paint,
                (producer, popup, frame),
                (),
            ) ==> {
                &&& popup ==> final(producer).popup_slot.frame() == Some(frame)
                &&& popup ==> final(producer).frame_slot == producer.frame_slot
                &&& !popup ==> final(producer).frame_slot.frame() == Some(frame)
                &&& !popup ==> final(producer).popup_slot == producer.popup_slot
            },
        forall|producer: &mut MacosCefProducer<A, P, M, H>, taken: Option<NativeFrame<H>>|
            #[trigger]
            call_ensures(
                MacosCefProducer::<A, P, M, H>::acquire_native_frame,
                (producer,),
                taken,
            ) ==> taken == producer.frame_slot.frame() && final(producer).frame_slot.frame() is None
                && final(producer).popup_slot == producer.popup_slot,
        forall|
            producer: &mut MacosCefProducer<A, P, M, H>,
            taken: Option<(NativeFrame<H>, PopupRect)>,
        | #[trigger]
            call_ensures(MacosCefProducer::<A, P, M, H>::acquire_popup, (producer,), taken) ==> (
            taken is Some <==> producer.page.popup.placement() is Some
                && producer.popup_slot.frame() is Some) && (taken matches Some((frame, rect))
                ==> Some(frame) == producer.popup_slot.frame() && Some(rect)
                == producer.page.popup.placement() && final(producer).popup_slot.frame() is None),
        forall|producer: &mut MacosCefProducer<A, P, M, H>| #[trigger]
            call_ensures(MacosCefProducer::<A, P, M, H>::on_popup_show, (producer, show), ()) ==> (
            final(producer).page.popup.shown() <==> show) && (!show
                ==> final(producer).popup_slot.frame() is None) && (show
                ==> final(producer).popup_slot.frame() == producer.popup_slot.frame()),
{
}

/// A producer takes the id of the browser that was created for it, and fails where
/// none was. Resizing lays the view out anew.
pub proof fn law_a_producer_follows_its_browser<A, P, M, H>(
    link: BrowserLink,
    size: PhysicalSize,
    id: i32,
)
    ensures
        forall|producer: &mut MacosCefProducer<A, P, M, H>, outcome: Result<(), WeldError>|
            #[trigger]
            call_ensures(
                MacosCefProducer::<A, P, M, H>::browser_created,
                (producer, Some(id)),
                outcome,
            ) ==> outcome is Ok && final(producer).browser_id == id,
        forall|producer: &mut MacosCefProducer<A, P, M, H>, outcome: Result<(), WeldError>|
            #[trigger]
            call_ensures(MacosCefProducer::<A, P, M, H>::browser_created, (producer, None), outcome)
                ==> (outcome matches Err(error) && error is SurfaceCreation) && *final(producer)
                == *producer,
        forall|producer: &mut MacosCefProducer<A, P, M, H>, commands: Vec<BrowserCommand>|
            #[trigger]
            call_ensures(MacosCefProducer::<A, P, M, H>::resize, (producer, link, size), commands)
                ==> final(producer).size == size && (link.host ==> commands@ == seq![
                BrowserCommand::WasResized,
            ]) && (!link.host ==> commands@.len() == 0),
{
}

/// Closing forces the browser closed, where there is one, and settles what was open on
/// its page.
pub proof fn law_closing_settles_the_page<A, P, M, H>(
    before: MacosCefProducer<A, P, M, H>,
    after: MacosCefProducer<A, P, M, H>,
    link: BrowserLink,
    commands: Vec<BrowserCommand>,
)
    requires
        before.page.well_formed(),
        exists|producer: &mut MacosCefProducer<A, P, M, H>|
            *producer == before && *final(producer) == after && #[trigger] call_ensures(
                MacosCefProducer::<A, P, M, H>::close,
                (producer, link),
                commands,
            ),
    ensures
        after.browser_id == 0,
        after.page.scripts@.len() == 0,
        after.page.cookies@ is None,
        link.host ==> commands@ == seq![BrowserCommand::CloseBrowser { force: true }],
        !link.host ==> commands@.len() == 0,
{
}

/// A producer starts with no browser and no frame, in the size and on the page that
/// were asked for.
pub proof fn law_a_producer_starts_as_asked<A, P, M, H>(
    config: MacosCefConfig,
    cache_path: Option<String>,
    made: Result<(MacosCefProducer<A, P, M, H>, BrowserSetup), WeldError>,
    setup: Result<BrowserSetup, WeldError>,
)
    requires
        call_ensures(MacosCefProducer::<A, P, M, H>::new, (config, &cache_path), made),
        call_ensures(browser_setup, (&config.surface, &cache_path, Platform::Macos), setup),
    ensures
        made is Ok <==> setup is Ok,
        config.surface.user_data_dir is None ==> made is Ok,
        made matches Err(error) ==> error is SurfaceCreation,
        made matches Ok((producer, setup)) ==> producer.browser_id == 0 && producer.size
            == config.surface.initial_size && producer.frame_slot.frame() is None
            && producer.popup_slot.frame() is None && setup.windowless_frame_rate == 60
            && setup.url@ == config.surface.initial_url@,
{
}

} // verus!
