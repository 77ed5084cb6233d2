//! The capture service on the message bus: how a call is read into a
//! capture request and how answers are put into words. The bus itself is
//! the caller's business.

use vstd::prelude::*;
use vstd::string::*;
use crate::screenshot::manager::{
    CaptureAction,
    CaptureSession,
    ScreenshotManager,
    begin,
    capabilities,
    first_available,
    names_view,
};
use crate::screenshot::{
    ScreenshotError,
    ScreenshotKind,
    ScreenshotOptions,
    ScreenshotOptionsView,
    text_view,
};

verus! {

/// The name that stands for no backend in particular.
pub const AUTO_BACKEND: &'static str = "auto";

pub struct ScreenshotService {
    pub manager: ScreenshotManager,
}

/// One capture asked for over the bus.
#[derive(Clone, Debug, PartialEq, Eq)]
pub struct ServiceRequest {
    pub options: ScreenshotOptions,
    /// The backend asked for; any backend will do when absent.
    pub backend_name: Option<String>,
}

/// The kind that a word stands for in a call that captures: a capture of
/// all screens for every word that names no other kind.
pub open spec fn kind_of_call(kind: Seq<char>) -> ScreenshotKind {
    match ScreenshotKind::of_token(kind) {
        Some(k) => k,
        None => ScreenshotKind::AllScreens,
    }
}

/// The text of the error for a capture of a region asked over the bus.
pub open spec fn region_over_bus_text() -> Seq<char> {
    "Region selection via D-Bus is not supported. Please use 'cosmic-screenshot take --kind region' from the command line."@
}

/// The directory that a text in a call stands for: none for the empty
/// text.
pub open spec fn directory_of_call(save_dir: Seq<char>) -> Option<Seq<char>> {
    if save_dir.len() == 0 {
        None
    } else {
        Some(save_dir)
    }
}

/// The backend that a name in a call stands for: none in particular for
/// the name `auto`.
pub open spec fn backend_of_call(backend: Seq<char>) -> Option<Seq<char>> {
    if backend == AUTO_BACKEND@ {
        None
    } else {
        Some(backend)
    }
}

/// The words for the kinds.
pub open spec fn tokens_of(kinds: Seq<ScreenshotKind>) -> Seq<Seq<char>> {
    Seq::new(kinds.len(), |i: int| kinds[i].spec_token())
}

/// For each entry its name and the words for its kinds.
pub open spec fn with_tokens(entries: Seq<(Seq<char>, Seq<ScreenshotKind>)>) -> Seq<
    (Seq<char>, Seq<Seq<char>>),
> {
    Seq::new(entries.len(), |i: int| (entries[i].0, tokens_of(entries[i].1)))
}

/// The characters of each name and of each word that goes with it.
pub open spec fn token_entries_view(entries: Seq<(String, Vec<String>)>) -> Seq<
    (Seq<char>, Seq<Seq<char>>),
> {
    Seq::new(entries.len(), |i: int| (entries[i].0@, names_view(entries[i].1@)))
}

fn kind_tokens(kinds: &Vec<ScreenshotKind>) -> (tokens: Vec<String>)
    ensures
        names_view(tokens@) == tokens_of(kinds@),
{
    let mut tokens: Vec<String> = Vec::new();
    let mut i: usize = 0;
    while i < kinds.len()
        invariant
            i <= kinds.len(),
            tokens.len() == i,
            forall|j: int| 0 <= j < i ==> tokens@[j]@ == kinds@[j].spec_token(),
        decreases kinds.len() - i,
    {
        tokens.push(String::from_str(kinds[i].token()));
        i = i + 1;
    }
    assert(names_view(tokens@) =~= tokens_of(kinds@));
    tokens
}

impl ScreenshotService {
    pub fn new() -> (service: ScreenshotService)
        ensures
            service.manager@ == ScreenshotManager::built_in_backends(),
    {
        ScreenshotService { manager: ScreenshotManager::new() }
    }

    /// Reads a capturing call into a request. A capture of a region
    /// cannot be asked for over the bus.
    pub fn prepare(
        &self,
        kind: &str,
        delay_ms: u32,
        save_to_clipboard: bool,
        save_dir: String,
        backend: &str,
    ) -> (request: Result<ServiceRequest, String>)
        ensures
            kind_of_call(kind@) is RectangularRegion ==> (request matches Err(e) && e@
                == region_over_bus_text()),
            !(kind_of_call(kind@) is RectangularRegion) ==> (request matches Ok(r) && r.options@
                == (ScreenshotOptionsView {
                kind: kind_of_call(kind@),
                delay_ms,
                save_to_clipboard,
                save_dir: directory_of_call(save_dir@),
            }) && text_view(r.backend_name) == backend_of_call(backend@)),
    {
        let screenshot_kind = match ScreenshotKind::from_token(kind) {
            Some(k) => k,
            None => ScreenshotKind::AllScreens,
        };
        if screenshot_kind == ScreenshotKind::RectangularRegion {
            return Err(
                String::from_str(
                    "Region selection via D-Bus is not supported. Please use 'cosmic-screenshot take --kind region' from the command line.",
                ),
            );
        }
        let directory = if save_dir.as_str().is_empty() {
            None
        } else {
            Some(save_dir)
        };
        let backend_name = if backend.eq(AUTO_BACKEND) {
            None
        } else {
            Some(String::from_str(backend))
        };
        Ok(
            ServiceRequest {
                options: ScreenshotOptions {
                    kind: screenshot_kind,
                    delay_ms,
                    save_to_clipboard,
                    save_dir: directory,
                },
                backend_name,
            },
        )
    }

    /// Starts the capture that a call asks for, with whichever backend
    /// works first.
    pub fn take_screenshot(
        &self,
        kind: &str,
        delay_ms: u32,
        save_to_clipboard: bool,
        save_dir: String,
    ) -> (started: Result<(CaptureSession, CaptureAction), String>)
        ensures
            kind_of_call(kind@) is RectangularRegion ==> (started matches Err(e) && e@
                == region_over_bus_text()),
            !(kind_of_call(kind@) is RectangularRegion) ==> (started matches Ok(s) && (s.0@, s.1@)
                == begin(self.manager@, kind_of_call(kind@), None)),
    {
        match self.prepare(kind, delay_ms, save_to_clipboard, save_dir, AUTO_BACKEND) {
            Ok(request) => Ok(self.manager.take_screenshot(&request.options)),
            Err(e) => Err(e),
        }
    }

    /// Starts the capture that a call asks for, with the backend that the
    /// call names.
    pub fn take_screenshot_with_backend(
        &self,
        kind: &str,
        delay_ms: u32,
        save_to_clipboard: bool,
        save_dir: String,
        backend: String,
    ) -> (started: Result<(CaptureSession, CaptureAction), String>)
        ensures
            kind_of_call(kind@) is RectangularRegion ==> (started matches Err(e) && e@
                == region_over_bus_text()),
            !(kind_of_call(kind@) is RectangularRegion) ==> (started matches Ok(s) && (s.0@, s.1@)
                == begin(self.manager@, kind_of_call(kind@), backend_of_call(backend@))),
    {
        match self.prepare(kind, delay_ms, save_to_clipboard, save_dir, backend.as_str()) {
            Ok(request) => {
                let started = match &request.backend_name {
                    Some(name) => self.manager.take_screenshot_with_backend(
                        &request.options,
                        Some(name.as_str()),
                    ),
                    None => self.manager.take_screenshot_with_backend(&request.options, None),
                };
                Ok(started)
            },
            Err(e) => Err(e),
        }
    }

    /// The names of the backends found available.
    pub fn get_available_backends(&self, available: &Vec<bool>) -> (names: Vec<String>)
        ensures
            names_view(names@) == crate::screenshot::manager::available_names(
                self.manager@,
                available@,
                self.manager.grabbers.len() as int,
            ),
    {
        self.manager.get_available_grabbers(available)
    }

    /// Whether the first backend found available offers the kind that the
    /// word stands for. A word that names no kind is offered by none.
    pub fn supports_kind(&self, kind: &str, available: &Vec<bool>) -> (supported: bool)
        ensures
            supported == (match (
                ScreenshotKind::of_token(kind@),
                first_available(self.manager@, available@, None, 0),
            ) {
                (Some(k), Some(j)) => self.manager@[j].kinds.contains(k),
                _ => false,
            }),
    {
        let screenshot_kind = match ScreenshotKind::from_token(kind) {
            Some(k) => k,
            None => { return false; },
        };
        match self.manager.get_available_grabber(available) {
            Some(j) => self.manager.grabbers[j].supports_kind(screenshot_kind),
            None => false,
        }
    }

    /// Whether the first available backend of the given name offers the
    /// kind that the word stands for.
    pub fn supports_kind_with_backend(&self, kind: &str, backend: &str, available: &Vec<bool>) -> (supported:
        bool)
        ensures
            supported == (match (
                ScreenshotKind::of_token(kind@),
                first_available(self.manager@, available@, Some(backend@), 0),
            ) {
                (Some(k), Some(j)) => self.manager@[j].kinds.contains(k),
                _ => false,
            }),
    {
        let screenshot_kind = match ScreenshotKind::from_token(kind) {
            Some(k) => k,
            None => { return false; },
        };
        self.manager.supports_kind_with_backend(screenshot_kind, backend, available)
    }

    /// For each backend found available its name and the words for the
    /// kinds it offers.
    pub fn get_backend_capabilities(&self, available: &Vec<bool>) -> (entries: Vec<
        (String, Vec<String>),
    >)
        ensures
            token_entries_view(entries@) == with_tokens(
                capabilities(self.manager@, available@, self.manager.grabbers.len() as int),
            ),
    {
        let listed = self.manager.get_backend_capabilities(available);
        let ghost expected = capabilities(
            self.manager@,
            available@,
            self.manager.grabbers.len() as int,
        );
        let mut entries: Vec<(String, Vec<String>)> = Vec::new();
        let mut i: usize = 0;
        while i < listed.len()
            invariant
                i <= listed.len(),
                listed@.len() == expected.len(),
                forall|j: int|
                    0 <= j < listed@.len() ==> (listed@[j].0@, listed@[j].1@) == expected[j],
                entries.len() == i,
                forall|j: int|
                    0 <= j < i ==> (entries@[j].0@, names_view(entries@[j].1@)) == (
                        expected[j].0,
                        tokens_of(expected[j].1),
                    ),
            decreases listed.len() - i,
        {
            let name = listed[i].0.clone();
            let tokens = kind_tokens(&listed[i].1);
            entries.push((name, tokens));
            i = i + 1;
        }
        assert(token_entries_view(entries@) =~= with_tokens(expected));
        entries
    }

    /// The text of the error for a capture that failed.
    pub fn failure_message(&self, error: &ScreenshotError) -> (text: String)
        ensures
            text@ == "Screenshot failed: "@ + ScreenshotError::spec_message(error@),
    {
        let mut text = String::from_str("Screenshot failed: ");
        let detail = error.message();
        text.append(detail.as_str());
        text
    }
}

} // verus!
