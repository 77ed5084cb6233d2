//! The fallback chain over the capture backends.
//!
//! The manager knows each backend by its name and by the kinds of capture it
//! offers. It does not talk to a backend itself: a capture is a session in
//! which the manager says what to do next (ask a backend whether it is
//! available, let a backend capture, or stop with a result) and the caller
//! does it and reports back what happened.

use vstd::prelude::*;
use vstd::string::*;
use crate::screenshot::freedesktop_portal::PortalScreengrabber;
use crate::screenshot::kwin_screenshot2::KWinScreengrabber;
use crate::screenshot::windows_native::WindowsScreengrabber;
use crate::screenshot::xorg_native::XorgScreengrabber;
use crate::screenshot::{
    ScreenshotError,
    ScreenshotErrorView,
    ScreenshotKind,
    ScreenshotOptions,
    ScreenshotResult,
    ScreenshotResultView,
    outcome_view,
    text_view,
};
use crate::text::{contains_ignore_case, contains_ignoring_case};

verus! {

/// What the manager knows of one backend.
#[derive(Clone, Debug, PartialEq, Eq)]
pub struct BackendInfo {
    pub name: String,
    /// The kinds of capture that the backend offers.
    pub kinds: Vec<ScreenshotKind>,
}

pub struct BackendInfoView {
    pub name: Seq<char>,
    pub kinds: Seq<ScreenshotKind>,
}

/// The backends in the order in which they are tried.
pub struct ScreenshotManager {
    pub grabbers: Vec<BackendInfo>,
}

/// Where a capture session stands.
#[derive(Clone, Copy, Debug, PartialEq, Eq, Structural)]
pub enum Phase {
    /// The backend with this index has been asked whether it is available.
    Probing(usize),
    /// The backend with this index has been asked to capture.
    Capturing(usize),
    /// The result has been handed out.
    Finished,
}

/// One capture under way.
#[derive(Clone, Debug, PartialEq, Eq)]
pub struct CaptureSession {
    pub kind: ScreenshotKind,
    /// The backend asked for by name; any backend will do when absent.
    pub backend_name: Option<String>,
    pub phase: Phase,
    /// The error of the backend that failed last.
    pub last_error: Option<ScreenshotError>,
}

pub struct CaptureSessionView {
    pub kind: ScreenshotKind,
    pub backend_name: Option<Seq<char>>,
    pub phase: Phase,
    pub last_error: Option<ScreenshotErrorView>,
}

/// What the caller is to do next.
#[derive(Debug, PartialEq, Eq)]
pub enum CaptureAction {
    /// Ask the backend with this index whether it is available.
    Probe(usize),
    /// Let the backend with this index capture.
    Capture(usize),
    /// Stop: this is the result of the capture.
    Finish(Result<ScreenshotResult, ScreenshotError>),
}

pub enum CaptureActionView {
    Probe(usize),
    Capture(usize),
    Finish(Result<ScreenshotResultView, ScreenshotErrorView>),
}

/// What a backend answered.
#[derive(Debug, PartialEq, Eq)]
pub enum BackendEvent {
    /// Whether the backend is available.
    Availability(bool),
    /// What the capture gave.
    Captured(Result<ScreenshotResult, ScreenshotError>),
}

pub enum BackendEventView {
    Availability(bool),
    Captured(Result<ScreenshotResultView, ScreenshotErrorView>),
}

impl View for BackendInfo {
    type V = BackendInfoView;

    open spec fn view(&self) -> BackendInfoView {
        BackendInfoView { name: self.name@, kinds: self.kinds@ }
    }
}

impl View for ScreenshotManager {
    type V = Seq<BackendInfoView>;

    open spec fn view(&self) -> Seq<BackendInfoView> {
        Seq::new(self.grabbers@.len(), |i: int| self.grabbers@[i]@)
    }
}

impl View for CaptureSession {
    type V = CaptureSessionView;

    open spec fn view(&self) -> CaptureSessionView {
        CaptureSessionView {
            kind: self.kind,
            backend_name: text_view(self.backend_name),
            phase: self.phase,
            last_error: match self.last_error {
                Some(e) => Some(e@),
                None => None,
            },
        }
    }
}

impl View for CaptureAction {
    type V = CaptureActionView;

    open spec fn view(&self) -> CaptureActionView {
        match self {
            CaptureAction::Probe(i) => CaptureActionView::Probe(*i),
            CaptureAction::Capture(i) => CaptureActionView::Capture(*i),
            CaptureAction::Finish(r) => CaptureActionView::Finish(outcome_view(*r)),
        }
    }
}

impl View for BackendEvent {
    type V = BackendEventView;

    open spec fn view(&self) -> BackendEventView {
        match self {
            BackendEvent::Availability(a) => BackendEventView::Availability(*a),
            BackendEvent::Captured(r) => BackendEventView::Captured(outcome_view(*r)),
        }
    }
}

/// The error text for a capture of a region asked of the manager.
pub open spec fn region_refusal_text() -> Seq<char> {
    "Rectangular region selection should use get_screenshot_for_region_selection() and snipper instead"@
}

/// The error text for a backend asked for by name that cannot be used.
pub open spec fn not_found_text(name: Seq<char>) -> Seq<char> {
    "Backend '"@ + name + "' not found or not available"@
}

/// The error text for an event that arrives after the session is over.
pub open spec fn session_over_text() -> Seq<char> {
    "Capture session is already finished"@
}

/// Whether a backend may be tried at all for a capture of `kind`: it
/// offers the kind and, where a backend is asked for by name, its name
/// holds that name, letter case aside.
pub open spec fn eligible(backend: BackendInfoView, kind: ScreenshotKind, name: Option<Seq<char>>) -> bool {
    &&& backend.kinds.contains(kind)
    &&& name matches Some(n) ==> contains_ignoring_case(backend.name, n)
}

/// The first backend from index `from` on that may be tried.
pub open spec fn next_candidate(
    backends: Seq<BackendInfoView>,
    kind: ScreenshotKind,
    name: Option<Seq<char>>,
    from: int,
) -> Option<int>
    decreases backends.len() - from,
{
    if from < 0 || from >= backends.len() {
        None
    } else if eligible(backends[from], kind, name) {
        Some(from)
    } else {
        next_candidate(backends, kind, name, from + 1)
    }
}

/// The error with which a session ends when no backend is left to try:
/// that the named backend cannot be used, else the error of the backend
/// that failed last, else that nothing is available.
pub open spec fn exhausted_error(session: CaptureSessionView) -> ScreenshotErrorView {
    match session.backend_name {
        Some(name) => ScreenshotErrorView::Portal(not_found_text(name)),
        None => match session.last_error {
            Some(e) => e,
            None => ScreenshotErrorView::NotAvailable,
        },
    }
}

/// The session and the action after looking for a backend to try from
/// index `from` on.
pub open spec fn scan(backends: Seq<BackendInfoView>, session: CaptureSessionView, from: int) -> (
    CaptureSessionView,
    CaptureActionView,
) {
    match next_candidate(backends, session.kind, session.backend_name, from) {
        Some(j) => (
            CaptureSessionView { phase: Phase::Probing(j as usize), ..session },
            CaptureActionView::Probe(j as usize),
        ),
        None => (
            CaptureSessionView { phase: Phase::Finished, last_error: None, ..session },
            CaptureActionView::Finish(Err(exhausted_error(session))),
        ),
    }
}

/// The session and the first action of a capture of `kind`. A capture of a
/// region ends at once with an error: no backend is asked anything.
pub open spec fn begin(backends: Seq<BackendInfoView>, kind: ScreenshotKind, name: Option<Seq<char>>) -> (
    CaptureSessionView,
    CaptureActionView,
) {
    if kind is RectangularRegion {
        (
            CaptureSessionView {
                kind,
                backend_name: name,
                phase: Phase::Finished,
                last_error: None,
            },
            CaptureActionView::Finish(Err(ScreenshotErrorView::Portal(region_refusal_text()))),
        )
    } else {
        scan(
            backends,
            CaptureSessionView {
                kind,
                backend_name: name,
                phase: Phase::Finished,
                last_error: None,
            },
            0,
        )
    }
}

/// The session and the action after a backend answered.
///
/// An available backend is asked to capture, an unavailable one is passed
/// over. A capture that succeeded ends the session. One that failed ends
/// the session too where the backend was asked for by name or the user
/// cancelled; otherwise its error is kept and the next backend is tried.
/// An answer that was not asked for changes nothing and the pending action
/// is repeated; once the session is over every answer gets an error.
pub open spec fn step(
    backends: Seq<BackendInfoView>,
    session: CaptureSessionView,
    event: BackendEventView,
) -> (CaptureSessionView, CaptureActionView) {
    match (session.phase, event) {
        (Phase::Probing(i), BackendEventView::Availability(true)) => (
            CaptureSessionView { phase: Phase::Capturing(i), ..session },
            CaptureActionView::Capture(i),
        ),
        (Phase::Probing(i), BackendEventView::Availability(false)) => scan(backends, session, i + 1),
        (Phase::Probing(i), BackendEventView::Captured(_)) => (session, CaptureActionView::Probe(i)),
        (Phase::Capturing(i), BackendEventView::Captured(Ok(r))) => (
            CaptureSessionView { phase: Phase::Finished, last_error: None, ..session },
            CaptureActionView::Finish(Ok(r)),
        ),
        (Phase::Capturing(i), BackendEventView::Captured(Err(e))) => {
            if session.backend_name is Some || e is Cancelled {
                (
                    CaptureSessionView { phase: Phase::Finished, last_error: None, ..session },
                    CaptureActionView::Finish(Err(e)),
                )
            } else {
                scan(backends, CaptureSessionView { last_error: Some(e), ..session }, i + 1)
            }
        },
        (Phase::Capturing(i), BackendEventView::Availability(_)) => (
            session,
            CaptureActionView::Capture(i),
        ),
        (Phase::Finished, _) => (
            session,
            CaptureActionView::Finish(Err(ScreenshotErrorView::Portal(session_over_text()))),
        ),
    }
}

impl ScreenshotKind {
    /// Every kind of capture, in the order in which they are listed.
    pub open spec fn all_kinds() -> Seq<ScreenshotKind> {
        seq![
            ScreenshotKind::AllScreens,
            ScreenshotKind::ScreenUnderCursor,
            ScreenshotKind::WindowUnderCursor,
            ScreenshotKind::SelectScreen,
            ScreenshotKind::RectangularRegion,
        ]
    }

    /// Every kind of capture, in the order in which they are listed.
    pub fn all() -> (kinds: Vec<ScreenshotKind>)
        ensures
            kinds@ == ScreenshotKind::all_kinds(),
    {
        let mut kinds: Vec<ScreenshotKind> = Vec::new();
        kinds.push(ScreenshotKind::AllScreens);
        kinds.push(ScreenshotKind::ScreenUnderCursor);
        kinds.push(ScreenshotKind::WindowUnderCursor);
        kinds.push(ScreenshotKind::SelectScreen);
        kinds.push(ScreenshotKind::RectangularRegion);
        assert(kinds@ =~= ScreenshotKind::all_kinds());
        kinds
    }
}

impl BackendInfo {
    pub fn new(name: &str, kinds: Vec<ScreenshotKind>) -> (info: BackendInfo)
        ensures
            info@ == (BackendInfoView { name: name@, kinds: kinds@ }),
    {
        BackendInfo { name: String::from_str(name), kinds }
    }

    /// Whether the backend offers `kind`.
    pub fn supports_kind(&self, kind: ScreenshotKind) -> (supported: bool)
        ensures
            supported == self@.kinds.contains(kind),
    {
        let mut i: usize = 0;
        while i < self.kinds.len()
            invariant
                i <= self.kinds.len(),
                forall|j: int| 0 <= j < i ==> self.kinds@[j] != kind,
            decreases self.kinds.len() - i,
        {
            if self.kinds[i] == kind {
                return true;
            }
            i = i + 1;
        }
        false
    }

    /// Whether the backend may be tried at all for a capture of `kind`.
    pub fn is_eligible(&self, kind: ScreenshotKind, backend_name: &Option<String>) -> (ok: bool)
        ensures
            ok == eligible(self@, kind, text_view(*backend_name)),
    {
        if !self.supports_kind(kind) {
            return false;
        }
        match backend_name {
            Some(name) => contains_ignore_case(self.name.as_str(), name.as_str()),
            None => true,
        }
    }
}

fn region_refusal() -> (e: ScreenshotError)
    ensures
        e@ == ScreenshotErrorView::Portal(region_refusal_text()),
{
    ScreenshotError::Portal(
        String::from_str(
            "Rectangular region selection should use get_screenshot_for_region_selection() and snipper instead",
        ),
    )
}

fn not_found(name: &str) -> (e: ScreenshotError)
    ensures
        e@ == ScreenshotErrorView::Portal(not_found_text(name@)),
{
    let mut text = String::from_str("Backend '");
    text.append(name);
    text.append("' not found or not available");
    ScreenshotError::Portal(text)
}

impl ScreenshotManager {
    /// The built-in backends in the order in which they are tried: the
    /// compositor's own interface first, the portal second, the native
    /// fallbacks last. Each offers every kind.
    pub open spec fn built_in_backends() -> Seq<BackendInfoView> {
        seq![
            BackendInfoView { name: "KWin ScreenShot2"@, kinds: ScreenshotKind::all_kinds() },
            BackendInfoView { name: "Freedesktop Portal"@, kinds: ScreenshotKind::all_kinds() },
            BackendInfoView { name: "X11 Native"@, kinds: ScreenshotKind::all_kinds() },
            BackendInfoView { name: "Windows Native"@, kinds: ScreenshotKind::all_kinds() },
        ]
    }

    /// The manager over the built-in backends.
    pub fn new() -> (manager: ScreenshotManager)
        ensures
            manager@ == ScreenshotManager::built_in_backends(),
    {
        let mut grabbers: Vec<BackendInfo> = Vec::new();
        grabbers.push(BackendInfo::new(KWinScreengrabber::new().name(), ScreenshotKind::all()));
        grabbers.push(BackendInfo::new(PortalScreengrabber::new().name(), ScreenshotKind::all()));
        grabbers.push(BackendInfo::new(XorgScreengrabber::new().name(), ScreenshotKind::all()));
        grabbers.push(BackendInfo::new(WindowsScreengrabber::new().name(), ScreenshotKind::all()));
        let manager = ScreenshotManager { grabbers };
        assert(manager@ =~= ScreenshotManager::built_in_backends());
        manager
    }

    /// The manager over the given backends, tried in the given order.
    pub fn with_backends(grabbers: Vec<BackendInfo>) -> (manager: ScreenshotManager)
        ensures
            manager.grabbers == grabbers,
    {
        ScreenshotManager { grabbers }
    }

    /// The first backend from index `from` on that may be tried.
    pub fn find_candidate(
        &self,
        kind: ScreenshotKind,
        backend_name: &Option<String>,
        from: usize,
    ) -> (found: Option<usize>)
        ensures
            match next_candidate(self@, kind, text_view(*backend_name), from as int) {
                Some(j) => found == Some(j as usize) && from <= j < self.grabbers.len(),
                None => found is None,
            },
    {
        let mut i: usize = from;
        while i < self.grabbers.len()
            invariant
                from <= i,
                next_candidate(self@, kind, text_view(*backend_name), from as int)
                    == next_candidate(self@, kind, text_view(*backend_name), i as int),
            decreases self.grabbers.len() - i,
        {
            if self.grabbers[i].is_eligible(kind, backend_name) {
                return Some(i);
            }
            i = i + 1;
        }
        None
    }

    /// Looks for a backend to try from index `from` on and moves the
    /// session there, or ends the session where none is left.
    fn scan_from(&self, session: &mut CaptureSession, from: usize) -> (action: CaptureAction)
        ensures
            (final(session)@, action@) == scan(self@, old(session)@, from as int),
    {
        match self.find_candidate(session.kind, &session.backend_name, from) {
            Some(j) => {
                session.phase = Phase::Probing(j);
                CaptureAction::Probe(j)
            },
            None => {
                session.phase = Phase::Finished;
                let last = session.last_error.take();
                let error = match &session.backend_name {
                    Some(name) => not_found(name.as_str()),
                    None => match last {
                        Some(e) => e,
                        None => ScreenshotError::NotAvailable,
                    },
                };
                CaptureAction::Finish(Err(error))
            },
        }
    }

    /// Looks for a backend to try behind index `index`.
    fn scan_after(&self, session: &mut CaptureSession, index: usize) -> (action: CaptureAction)
        ensures
            (final(session)@, action@) == scan(self@, old(session)@, index + 1),
    {
        if index < self.grabbers.len() {
            self.scan_from(session, index + 1)
        } else {
            let at_end = self.grabbers.len();
            assert(next_candidate(self@, session.kind, text_view(session.backend_name), index + 1)
                is None);
            assert(next_candidate(
                self@,
                session.kind,
                text_view(session.backend_name),
                at_end as int,
            ) is None);
            self.scan_from(session, at_end)
        }
    }

    /// Starts a capture with the backend whose name holds `backend_name`,
    /// or with whichever backend works first where no name is given.
    pub fn take_screenshot_with_backend(
        &self,
        options: &ScreenshotOptions,
        backend_name: Option<&str>,
    ) -> (started: (CaptureSession, CaptureAction))
        ensures
            (started.0@, started.1@) == begin(
                self@,
                options.kind,
                match backend_name {
                    Some(n) => Some(n@),
                    None => None,
                },
            ),
    {
        let name = match backend_name {
            Some(n) => Some(String::from_str(n)),
            None => None,
        };
        let mut session = CaptureSession {
            kind: options.kind,
            backend_name: name,
            phase: Phase::Finished,
            last_error: None,
        };
        if options.kind == ScreenshotKind::RectangularRegion {
            return (session, CaptureAction::Finish(Err(region_refusal())));
        }
        let action = self.scan_from(&mut session, 0);
        (session, action)
    }

    /// Starts a capture with whichever backend works first.
    pub fn take_screenshot(&self, options: &ScreenshotOptions) -> (started: (
        CaptureSession,
        CaptureAction,
    ))
        ensures
            (started.0@, started.1@) == begin(self@, options.kind, None),
    {
        self.take_screenshot_with_backend(options, None)
    }

    /// Takes what a backend answered and says what to do next.
    pub fn advance(&self, session: &mut CaptureSession, event: BackendEvent) -> (action:
        CaptureAction)
        ensures
            (final(session)@, action@) == step(self@, old(session)@, event@),
    {
        match session.phase {
            Phase::Probing(i) => match event {
                BackendEvent::Availability(true) => {
                    session.phase = Phase::Capturing(i);
                    CaptureAction::Capture(i)
                },
                BackendEvent::Availability(false) => self.scan_after(session, i),
                BackendEvent::Captured(_) => CaptureAction::Probe(i),
            },
            Phase::Capturing(i) => match event {
                BackendEvent::Captured(Ok(result)) => {
                    session.phase = Phase::Finished;
                    session.last_error = None;
                    CaptureAction::Finish(Ok(result))
                },
                BackendEvent::Captured(Err(error)) => {
                    let cancelled = match &error {
                        ScreenshotError::Cancelled => true,
                        _ => false,
                    };
                    if session.backend_name.is_some() || cancelled {
                        session.phase = Phase::Finished;
                        session.last_error = None;
                        CaptureAction::Finish(Err(error))
                    } else {
                        session.last_error = Some(error);
                        self.scan_after(session, i)
                    }
                },
                BackendEvent::Availability(_) => CaptureAction::Capture(i),
            },
            Phase::Finished => CaptureAction::Finish(
                Err(ScreenshotError::Portal(String::from_str("Capture session is already finished"))),
            ),
        }
    }
}

/// Whether backend `i` was found available. A backend that was not asked
/// counts as unavailable.
pub open spec fn is_up(available: Seq<bool>, i: int) -> bool {
    0 <= i < available.len() && available[i]
}

/// The first available backend from index `from` on whose name holds
/// `name`, letter case aside; the first available one where no name is
/// given.
pub open spec fn first_available(
    backends: Seq<BackendInfoView>,
    available: Seq<bool>,
    name: Option<Seq<char>>,
    from: int,
) -> Option<int>
    decreases backends.len() - from,
{
    if from < 0 || from >= backends.len() {
        None
    } else if is_up(available, from) && (name matches Some(n) ==> contains_ignoring_case(
        backends[from].name,
        n,
    )) {
        Some(from)
    } else {
        first_available(backends, available, name, from + 1)
    }
}

/// The names of the available backends among the first `upto`, in order.
pub open spec fn available_names(
    backends: Seq<BackendInfoView>,
    available: Seq<bool>,
    upto: int,
) -> Seq<Seq<char>>
    decreases upto,
{
    if upto <= 0 {
        Seq::empty()
    } else if is_up(available, upto - 1) {
        available_names(backends, available, upto - 1).push(backends[upto - 1].name)
    } else {
        available_names(backends, available, upto - 1)
    }
}

/// `kind` alone where the backend offers it, else nothing.
pub open spec fn offered(backend: BackendInfoView, kind: ScreenshotKind) -> Seq<ScreenshotKind> {
    if backend.kinds.contains(kind) {
        seq![kind]
    } else {
        Seq::empty()
    }
}

/// The kinds that a backend offers, in the order in which kinds are
/// listed, each once.
pub open spec fn offered_kinds(backend: BackendInfoView) -> Seq<ScreenshotKind> {
    offered(backend, ScreenshotKind::AllScreens) + offered(
        backend,
        ScreenshotKind::ScreenUnderCursor,
    ) + offered(backend, ScreenshotKind::WindowUnderCursor) + offered(
        backend,
        ScreenshotKind::SelectScreen,
    ) + offered(backend, ScreenshotKind::RectangularRegion)
}

/// For each available backend among the first `upto`, in order, its name
/// and the kinds it offers.
pub open spec fn capabilities(
    backends: Seq<BackendInfoView>,
    available: Seq<bool>,
    upto: int,
) -> Seq<(Seq<char>, Seq<ScreenshotKind>)>
    decreases upto,
{
    if upto <= 0 {
        Seq::empty()
    } else if is_up(available, upto - 1) {
        capabilities(backends, available, upto - 1).push(
            (backends[upto - 1].name, offered_kinds(backends[upto - 1])),
        )
    } else {
        capabilities(backends, available, upto - 1)
    }
}

/// The characters of each text.
pub open spec fn names_view(names: Seq<String>) -> Seq<Seq<char>> {
    Seq::new(names.len(), |i: int| names[i]@)
}

/// The characters of each name, with the kinds that go with it.
pub open spec fn capabilities_view(entries: Seq<(String, Vec<ScreenshotKind>)>) -> Seq<
    (Seq<char>, Seq<ScreenshotKind>),
> {
    Seq::new(entries.len(), |i: int| (entries[i].0@, entries[i].1@))
}

fn found_available(available: &Vec<bool>, i: usize) -> (up: bool)
    ensures
        up == is_up(available@, i as int),
{
    i < available.len() && available[i]
}

impl BackendInfo {
    /// The kinds that the backend offers, in the order in which kinds are
    /// listed.
    pub fn supported_kinds(&self) -> (kinds: Vec<ScreenshotKind>)
        ensures
            kinds@ == offered_kinds(self@),
    {
        let mut kinds: Vec<ScreenshotKind> = Vec::new();
        if self.supports_kind(ScreenshotKind::AllScreens) {
            kinds.push(ScreenshotKind::AllScreens);
        }
        if self.supports_kind(ScreenshotKind::ScreenUnderCursor) {
            kinds.push(ScreenshotKind::ScreenUnderCursor);
        }
        if self.supports_kind(ScreenshotKind::WindowUnderCursor) {
            kinds.push(ScreenshotKind::WindowUnderCursor);
        }
        if self.supports_kind(ScreenshotKind::SelectScreen) {
            kinds.push(ScreenshotKind::SelectScreen);
        }
        if self.supports_kind(ScreenshotKind::RectangularRegion) {
            kinds.push(ScreenshotKind::RectangularRegion);
        }
        assert(kinds@ =~= offered_kinds(self@));
        kinds
    }
}

impl ScreenshotManager {
    /// The names of the backends found available, in the order in which
    /// backends are tried. `available` says of each backend, by index,
    /// whether it was found available.
    pub fn get_available_grabbers(&self, available: &Vec<bool>) -> (names: Vec<String>)
        ensures
            names_view(names@) == available_names(self@, available@, self.grabbers.len() as int),
    {
        let mut names: Vec<String> = Vec::new();
        let mut i: usize = 0;
        assert(names_view(names@) =~= available_names(self@, available@, 0));
        while i < self.grabbers.len()
            invariant
                i <= self.grabbers.len(),
                names_view(names@) == available_names(self@, available@, i as int),
            decreases self.grabbers.len() - i,
        {
            if found_available(available, i) {
                names.push(self.grabbers[i].name.clone());
                assert(names_view(names@) =~= available_names(self@, available@, i + 1));
            }
            i = i + 1;
        }
        names
    }

    /// The first backend found available.
    pub fn get_available_grabber(&self, available: &Vec<bool>) -> (index: Option<usize>)
        ensures
            match first_available(self@, available@, None, 0) {
                Some(j) => index == Some(j as usize) && 0 <= j < self.grabbers.len(),
                None => index is None,
            },
    {
        self.find_available(available, &None, 0)
    }

    /// The first backend found available whose name holds `backend_name`,
    /// letter case aside.
    pub fn get_grabber_by_name(&self, backend_name: &str, available: &Vec<bool>) -> (index:
        Option<usize>)
        ensures
            match first_available(self@, available@, Some(backend_name@), 0) {
                Some(j) => index == Some(j as usize) && 0 <= j < self.grabbers.len(),
                None => index is None,
            },
    {
        self.find_available(available, &Some(backend_name), 0)
    }

    fn find_available(&self, available: &Vec<bool>, name: &Option<&str>, from: usize) -> (index:
        Option<usize>)
        ensures
            match first_available(
                self@,
                available@,
                match *name {
                    Some(n) => Some(n@),
                    None => None,
                },
                from as int,
            ) {
                Some(j) => index == Some(j as usize) && from <= j < self.grabbers.len(),
                None => index is None,
            },
    {
        let ghost wanted: Option<Seq<char>> = match *name {
            Some(n) => Some(n@),
            None => None,
        };
        let mut i: usize = from;
        while i < self.grabbers.len()
            invariant
                from <= i,
                wanted == (match *name {
                    Some(n) => Some(n@),
                    None => None,
                }),
                first_available(self@, available@, wanted, from as int) == first_available(
                    self@,
                    available@,
                    wanted,
                    i as int,
                ),
            decreases self.grabbers.len() - i,
        {
            if found_available(available, i) {
                let bears_name = match name {
                    Some(n) => contains_ignore_case(self.grabbers[i].name.as_str(), n),
                    None => true,
                };
                if bears_name {
                    return Some(i);
                }
            }
            i = i + 1;
        }
        None
    }

    /// Whether the first available backend of the given name offers
    /// `kind`; false where there is no such backend.
    pub fn supports_kind_with_backend(
        &self,
        kind: ScreenshotKind,
        backend_name: &str,
        available: &Vec<bool>,
    ) -> (supported: bool)
        ensures
            supported == (match first_available(self@, available@, Some(backend_name@), 0) {
                Some(j) => self@[j].kinds.contains(kind),
                None => false,
            }),
    {
        match self.get_grabber_by_name(backend_name, available) {
            Some(j) => self.grabbers[j].supports_kind(kind),
            None => false,
        }
    }

    /// For each backend found available, in the order in which backends
    /// are tried, its name and the kinds it offers.
    pub fn get_backend_capabilities(&self, available: &Vec<bool>) -> (entries: Vec<
        (String, Vec<ScreenshotKind>),
    >)
        ensures
            capabilities_view(entries@) == capabilities(
                self@,
                available@,
                self.grabbers.len() as int,
            ),
    {
        let mut entries: Vec<(String, Vec<ScreenshotKind>)> = Vec::new();
        let mut i: usize = 0;
        assert(capabilities_view(entries@) =~= capabilities(self@, available@, 0));
        while i < self.grabbers.len()
            invariant
                i <= self.grabbers.len(),
                capabilities_view(entries@) == capabilities(self@, available@, i as int),
            decreases self.grabbers.len() - i,
        {
            if found_available(available, i) {
                let name = self.grabbers[i].name.clone();
                let kinds = self.grabbers[i].supported_kinds();
                entries.push((name, kinds));
                assert(capabilities_view(entries@) =~= capabilities(self@, available@, i + 1));
            }
            i = i + 1;
        }
        entries
    }

    /// Starts the capture that a region selection works on: a capture of
    /// the screen under the cursor with whichever backend works first.
    pub fn get_screenshot_for_region_selection(&self) -> (started: (
        CaptureSession,
        CaptureAction,
    ))
        ensures
            (started.0@, started.1@) == begin(self@, ScreenshotKind::ScreenUnderCursor, None),
    {
        let options = ScreenshotOptions {
            kind: ScreenshotKind::ScreenUnderCursor,
            delay_ms: 0,
            save_to_clipboard: false,
            save_dir: None,
        };
        self.take_screenshot(&options)
    }
}

} // verus!
