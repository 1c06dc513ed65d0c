//! The Windows producer: frames are imported while they are painted.
//!
//! The browser is created asynchronously, on a thread of its own, so the host
//! may want it closed before it exists. Such a wish is remembered and carried
//! out when the browser arrives.
use vstd::prelude::*;
use vstd::string::*;
use crate::capabilities::CefSurfaceMode;
use crate::commands::{BrowserCommand, BrowserLink};
use crate::error::{is_surface_creation, WeldError};
use crate::import::{check_copier, is_mismatch};
use crate::native_frame::{InteropBackend, NativeFrameKind};
use crate::page::{settled_all, Page};
use crate::platform::{PhysicalSize, Platform};
use crate::setup::{browser_setup, setup_fault, sets_up, BrowserSetup};
use crate::surface::{is_default_config, CefSurfaceConfig, PopupRect};

verus! {

/// Configuration of the Windows producer.
#[derive(Debug)]
pub struct WindowsCefConfig {
    pub surface: CefSurfaceConfig,
}

impl Default for WindowsCefConfig {
    fn default() -> (config: Self)
        ensures
            is_default_config(config.surface),
    {
        WindowsCefConfig { surface: CefSurfaceConfig::default() }
    }
}

/// One browser surface, whose frames are textures of the host (`T`). The other
/// type parameters are the callbacks of a [`Page`].
#[derive(Debug)]
pub struct WindowsCefProducer<A, P, M, T> {
    /// The browser's identifier. Zero where there is no browser.
    pub browser_id: i32,
    pub size: PhysicalSize,
    /// Whether the browser has closed.
    pub closed: bool,
    /// Whether the host wants the browser closed.
    pub close_requested: bool,
    pub page: Page<A, P, M>,
    pub frame: Option<T>,
    pub popup_frame: Option<T>,
    /// The last generation that was handed out.
    pub generation: u64,
}

/// A forced close, where `now` there is something to close.
pub open spec fn closing(now: bool) -> Seq<BrowserCommand> {
    if now {
        seq![BrowserCommand::CloseBrowser { force: true }]
    } else {
        Seq::empty()
    }
}

/// A forced close, where `now` there is something to close.
fn close_if(now: bool) -> (commands: Vec<BrowserCommand>)
    ensures
        commands@ == closing(now),
{
    let mut commands: Vec<BrowserCommand> = Vec::new();
    if now {
        commands.push(BrowserCommand::CloseBrowser { force: true });
    }
    assert(commands@ =~= closing(now));
    commands
}

impl<A, P, M, T> WindowsCefProducer<A, P, M, T> {
    /// The producer once the host asked to close its browser.
    pub open spec fn asked_to_close(self) -> Self {
        WindowsCefProducer { closed: false, close_requested: true, ..self }
    }

    /// The producer once its browser arrived.
    pub open spec fn arrived(self, browser_id: i32) -> Self {
        WindowsCefProducer { browser_id, ..self }
    }

    /// What is asked of a browser that arrives.
    pub open spec fn on_arrival(self) -> Seq<BrowserCommand> {
        closing(self.close_requested)
    }

    /// Set up a surface for a host whose device runs on `backend`, and say how its
    /// browser is created. Fails where the device cannot take the browser's
    /// frames, and then where the profile cannot be kept where the configuration
    /// wants it.
    pub fn new(
        config: WindowsCefConfig,
        backend: InteropBackend,
        cache_path: &Option<String>,
    ) -> (outcome: Result<(Self, BrowserSetup), WeldError>)
        ensures
            match outcome {
                Err(error) => if backend != InteropBackend::Dx12 {
                    error matches WeldError::Import(error) && is_mismatch(
                        error,
                        NativeFrameKind::Dx12SharedTexture,
                        backend,
                    )
                } else {
                    setup_fault(config.surface, *cache_path, Platform::Windows) matches Some(reason)
                        && is_surface_creation(error, reason)
                },
                Ok((producer, setup)) => {
                    &&& backend == InteropBackend::Dx12
                    &&& setup_fault(config.surface, *cache_path, Platform::Windows) is None
                    &&& sets_up(config.surface, setup)
                    &&& producer.browser_id == 0
                    &&& producer.size == config.surface.initial_size
                    &&& !producer.closed
                    &&& !producer.close_requested
                    &&& producer.page.is_new(config.surface, Platform::Windows)
                    &&& producer.frame is None
                    &&& producer.popup_frame is None
                    &&& producer.generation == 0
                },
            },
    {
        match check_copier(backend) {
            Ok(()) => {},
            Err(error) => {
                return Err(WeldError::Import(error));
            },
        }
        let setup: BrowserSetup = match browser_setup(
            &config.surface,
            cache_path,
            Platform::Windows,
        ) {
            Ok(setup) => setup,
            Err(error) => {
                return Err(error);
            },
        };
        let producer = WindowsCefProducer {
            browser_id: 0,
            size: config.surface.initial_size,
            closed: false,
            close_requested: false,
            page: Page::new(config.surface, Platform::Windows),
            frame: None,
            popup_frame: None,
            generation: 0,
        };
        Ok((producer, setup))
    }

    /// The creation of the browser started, or did not.
    pub fn creation_answered(&self, started: bool) -> (outcome: Result<(), WeldError>)
        ensures
            match outcome {
                Ok(()) => started,
                Err(error) => !started && is_surface_creation(
                    error,
                    "browser_host_create_browser returned false"@,
                ),
            },
    {
        if started {
            Ok(())
        } else {
            Err(
                WeldError::SurfaceCreation("browser_host_create_browser returned false".to_owned()),
            )
        }
    }

    /// The browser arrived. It is closed again where that was asked for in the
    /// meantime.
    pub fn on_after_created(&mut self, browser_id: i32) -> (commands: Vec<BrowserCommand>)
        ensures
            *final(self) == old(self).arrived(browser_id),
            commands@ == old(self).on_arrival(),
    {
        self.browser_id = browser_id;
        close_if(self.close_requested)
    }

    /// The browser has closed. Whatever is in flight is settled.
    pub fn on_before_close(&mut self)
        requires
            old(self).page.well_formed(),
        ensures
            final(self).page.well_formed(),
            *final(self) == (WindowsCefProducer {
                browser_id: 0,
                closed: true,
                page: final(self).page,
                ..*old(self)
            }),
            settled_all(old(self).page, final(self).page, "browser closed"@),
    {
        self.page.settle_all("browser closed");
        self.browser_id = 0;
        self.closed = true;
    }

    pub fn is_closed(&self) -> (closed: bool)
        ensures
            closed == self.closed,
    {
        self.closed
    }

    /// Close the browser, now or as soon as it arrives.
    pub fn close(&mut self, link: BrowserLink) -> (commands: Vec<BrowserCommand>)
        ensures
            *final(self) == old(self).asked_to_close(),
            commands@ == closing(link.host),
    {
        self.closed = false;
        self.close_requested = true;
        close_if(link.host)
    }

    pub fn surface_mode(&self) -> (mode: CefSurfaceMode)
        ensures
            mode == CefSurfaceMode::AcceleratedPaint,
    {
        CefSurfaceMode::AcceleratedPaint
    }

    /// The view has a new size. Newly exposed regions need a fresh paint.
    pub fn resize(&mut self, link: BrowserLink, size: PhysicalSize) -> (commands: Vec<
        BrowserCommand,
    >)
        ensures
            *final(self) == (WindowsCefProducer { size, ..*old(self) }),
            commands@ == (if link.host {
                seq![BrowserCommand::WasResized, BrowserCommand::Invalidate]
            } else {
                Seq::<BrowserCommand>::empty()
            }),
    {
        self.size = size;
        let mut commands: Vec<BrowserCommand> = Vec::new();
        if link.host {
            commands.push(BrowserCommand::WasResized);
            commands.push(BrowserCommand::Invalidate);
        }
        assert(commands@ =~= if link.host {
            seq![BrowserCommand::WasResized, BrowserCommand::Invalidate]
        } else {
            Seq::<BrowserCommand>::empty()
        });
        commands
    }

    /// The generation of a frame that is being painted.
    pub fn next_generation(&mut self) -> (generation: u64)
        requires
            old(self).generation < u64::MAX,
        ensures
            generation == old(self).generation + 1,
            *final(self) == (WindowsCefProducer { generation, ..*old(self) }),
    {
        self.generation = self.generation + 1;
        self.generation
    }

    /// A frame was painted and imported. It replaces the one before it.
    pub fn on_accelerated_paint(&mut self, popup: bool, frame: T)
        ensures
            *final(self) == (if popup {
                WindowsCefProducer { popup_frame: Some(frame), ..*old(self) }
            } else {
                WindowsCefProducer { frame: Some(frame), ..*old(self) }
            }),
    {
        if popup {
            self.popup_frame = Some(frame);
        } else {
            self.frame = Some(frame);
        }
    }

    /// Take the newest frame, if there is one since the last call.
    pub fn acquire_frame(&mut self) -> (frame: Option<T>)
        ensures
            frame == old(self).frame,
            *final(self) == (WindowsCefProducer { frame: None, ..*old(self) }),
    {
        self.frame.take()
    }

    /// Take the newest frame of the popup widget and where it goes, if the popup
    /// shows and was painted since the last call. The place is in
    /// device-independent pixels.
    pub fn acquire_popup(&mut self) -> (popup: Option<(T, PopupRect)>)
        ensures
            match old(self).page.popup.placement() {
                None => popup is None && *final(self) == *old(self),
                Some(rect) => {
                    &&& popup == match old(self).popup_frame {
                        Some(frame) => Some((frame, rect)),
                        None => None,
                    }
                    &&& *final(self) == (WindowsCefProducer { popup_frame: None, ..*old(self) })
                },
            },
    {
        match self.page.popup.rect_if_visible() {
            None => None,
            Some(rect) => match self.popup_frame.take() {
                Some(frame) => Some((frame, rect)),
                None => None,
            },
        }
    }

    /// Where the popup widget shows, in device-independent pixels.
    pub fn popup_rect(&self) -> (rect: Option<PopupRect>)
        ensures
            rect == self.page.popup.placement(),
    {
        self.page.popup.rect_if_visible()
    }

    /// The popup widget is shown or hidden. A hidden popup loses its frame.
    pub fn on_popup_show(&mut self, show: bool)
        ensures
            final(self).page.popup.shown() == show,
            final(self).page.popup.rect() == old(self).page.popup.rect(),
            final(self).popup_frame == (if show {
                old(self).popup_frame
            } else {
                None
            }),
            *final(self) == (WindowsCefProducer {
                page: Page { popup: final(self).page.popup, ..old(self).page },
                popup_frame: final(self).popup_frame,
                ..*old(self)
            }),
    {
        self.page.popup.set_visible(show);
        if !show {
            self.popup_frame = None;
        }
    }

    pub fn browser_id(&self) -> (id: i32)
        ensures
            id == self.browser_id,
    {
        self.browser_id
    }
}

/// A close is never lost. Asked for before the browser arrives, it is carried out
/// on arrival, whatever the view and the page did in between; nothing is closed that
/// was not asked for.
pub proof fn law_a_close_is_carried_out_on_arrival<A, P, M, T>(
    before: WindowsCefProducer<A, P, M, T>,
    size: PhysicalSize,
    page: Page<A, P, M>,
)
    ensures
        (WindowsCefProducer { size, page, ..before.asked_to_close() }).on_arrival() == seq![
            BrowserCommand::CloseBrowser { force: true },
        ],
        !before.close_requested ==> before.on_arrival() == Seq::<BrowserCommand>::empty(),
{
}

/// A producer closes its browser by force, at once where it is there. One that was
/// asked before its browser arrived closes it as soon as it does.
pub proof fn law_a_browser_is_closed_when_it_can_be<A, P, M, T>(link: BrowserLink, id: i32)
    ensures
        forall|producer: &mut WindowsCefProducer<A, P, M, T>, commands: Vec<BrowserCommand>|
            #[trigger]
            call_ensures(WindowsCefProducer::<A, P, M, T>::close, (producer, link), commands)
                ==> final(producer).close_requested && !final(producer).closed && (link.host
                ==> commands@ == seq![BrowserCommand::CloseBrowser { force: true }]) && (!link.host
                ==> commands@.len() == 0),
        forall|producer: &mut WindowsCefProducer<A, P, M, T>, commands: Vec<BrowserCommand>|
            #[trigger]
            call_ensures(
                WindowsCefProducer::<A, P, M, T>::on_after_created,
                (producer, id),
                commands,
            ) ==> final(producer).browser_id == id && final(producer).close_requested
                == producer.close_requested && (producer.close_requested ==> commands@ == seq![
                BrowserCommand::CloseBrowser { force: true },
            ]) && (!producer.close_requested ==> commands@.len() == 0),
{
}

/// A browser that closed is gone, and what was open on its page is settled.
pub proof fn law_a_closed_browser_is_gone<A, P, M, T>(
    before: WindowsCefProducer<A, P, M, T>,
    after: WindowsCefProducer<A, P, M, T>,
)
    requires
        before.page.well_formed(),
        exists|producer: &mut WindowsCefProducer<A, P, M, T>|
            *producer == before && *final(producer) == after && #[trigger] call_ensures(
                WindowsCefProducer::<A, P, M, T>::on_before_close,
                (producer,),
                (),
            ),
    ensures
        after.closed,
        after.browser_id == 0,
        after.page.scripts@.len() == 0,
        after.page.cookies@ is None,
{
}

/// The latest frame of the view, or of the popup, is taken once. A popup is taken only
/// while it has a place, and with it.
pub proof fn law_painted_frames_are_taken_once<A, P, M, T>(frame: T, popup: bool, show: bool)
    ensures
        forall|producer: &mut WindowsCefProducer<A, P, M, T>| #[trigger]
            call_ensures(
                WindowsCefProducer::<A, P, M, T>::on_accelerated_paint,
                (producer, popup, frame),
                (),
            ) ==> {
                &&& popup ==> final(producer).popup_frame == Some(frame)
                &&& popup ==> final(producer).frame == producer.frame
                &&& !popup ==> final(producer).frame == Some(frame)
                &&& !popup ==> final(producer).popup_frame == producer.popup_frame
            },
        forall|producer: &mut WindowsCefProducer<A, P, M, T>, taken: Option<T>| #[trigger]
            call_ensures(WindowsCefProducer::<A, P, M, T>::acquire_frame, (producer,), taken)
                ==> taken == producer.frame && final(producer).frame is None,
        forall|producer: &mut WindowsCefProducer<A, P, M, T>, taken: Option<(T, PopupRect)>|
            #[trigger]
            call_ensures(WindowsCefProducer::<A, P, M, T>::acquire_popup, (producer,), taken) ==> {
                &&& taken is Some <==> producer.page.popup.placement() is Some
                    && producer.popup_frame is Some
                &&& taken matches Some((frame, rect)) ==> Some(frame) == producer.popup_frame
                    && Some(rect) == producer.page.popup.placement()
                &&& taken is Some ==> final(producer).popup_frame is None
            },
        forall|producer: &mut WindowsCefProducer<A, P, M, T>| #[trigger]
            call_ensures(WindowsCefProducer::<A, P, M, T>::on_popup_show, (producer, show), ()) ==> {
                &&& final(producer).page.popup.shown() <==> show
                &&& !show ==> final(producer).popup_frame is None
                &&& show ==> final(producer).popup_frame == producer.popup_frame
            },
{
}

/// A view that is resized is laid out and painted anew, where there is a browser.
pub proof fn law_a_resized_view_is_painted_anew<A, P, M, T>(link: BrowserLink, size: PhysicalSize)
    ensures
        forall|producer: &mut WindowsCefProducer<A, P, M, T>, commands: Vec<BrowserCommand>|
            #[trigger]
            call_ensures(
                WindowsCefProducer::<A, P, M, T>::resize,
                (producer, link, size),
                commands,
            ) ==> final(producer).size == size && (link.host ==> commands@ == seq![
                BrowserCommand::WasResized,
                BrowserCommand::Invalidate,
            ]) && (!link.host ==> commands@.len() == 0),
{
}

/// A producer needs a D3D12 device, and starts with no browser, no frame and the size
/// that was asked for.
pub proof fn law_a_producer_starts_on_dx12<A, P, M, T>(
    config: WindowsCefConfig,
    backend: InteropBackend,
    cache_path: Option<String>,
    made: Result<(WindowsCefProducer<A, P, M, T>, BrowserSetup), WeldError>,
    setup: Result<BrowserSetup, WeldError>,
)
    requires
        call_ensures(
            WindowsCefProducer::<A, P, M, T>::new,
            (config, backend, &cache_path),
            made,
        ),
        call_ensures(browser_setup, (&config.surface, &cache_path, Platform::Windows), setup),
    ensures
        made is Ok <==> backend == InteropBackend::Dx12 && setup is Ok,
        backend != InteropBackend::Dx12 ==> (made matches Err(error) && error is Import),
        backend == InteropBackend::Dx12 && config.surface.user_data_dir is None ==> made is Ok,
        made matches Ok((producer, setup)) ==> producer.browser_id == 0 && producer.size
            == config.surface.initial_size && !producer.closed && !producer.close_requested
            && producer.frame is None && producer.popup_frame is None && producer.generation == 0
            && setup.windowless_frame_rate == 60 && setup.url@ == config.surface.initial_url@,
{
}

} // verus!
