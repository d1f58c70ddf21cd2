//! The daemon's manager: it keeps the next wallpaper ready, hands it to the
//! outputs on request and prepares the one after.
use vstd::prelude::*;

use crate::image_wrapper::{ImageWrapper, ImageWrapperError};
use crate::random_file::{RandomFileError, RandomFileSelector};

verus! {

/// Why the next wallpaper could not be had.
#[allow(inconsistent_fields)]
#[derive(Debug)]
pub enum AppManagerError {
    RandomFileError { error: RandomFileError },
    ImageError { error: ImageWrapperError },
}

/// The path picked for the next wallpaper, or why none was.
pub fn pick_next_image_path(file_selector: &mut RandomFileSelector) -> (res: Result<
    String,
    AppManagerError,
>)
    ensures
        final(file_selector).spec_directories() == old(file_selector).spec_directories(),
        final(file_selector).spec_extensions() == old(file_selector).spec_extensions(),
        final(file_selector).spec_matching_files() == old(file_selector).spec_matching_files(),
        res is Ok <==> old(file_selector).spec_matching_files().len() > 0,
        res matches Ok(path) ==> final(file_selector).spec_prev_index() matches Some(i) && i < old(
            file_selector,
        ).spec_matching_files().len() && path@ == old(file_selector).spec_matching_files()[i as int],
        res matches Err(e) ==> e is RandomFileError,
{
    match file_selector.pick_next() {
        Ok(path) => Ok(path),
        Err(error) => Err(AppManagerError::RandomFileError { error }),
    }
}

/// The wallpaper of what loading a picked file gave.
pub fn image_of_loaded(loaded: Result<ImageWrapper, ImageWrapperError>) -> (res: Result<
    ImageWrapper,
    AppManagerError,
>)
    ensures
        loaded matches Ok(image) ==> res == Ok::<ImageWrapper, AppManagerError>(image),
        loaded matches Err(error) ==> res == Err::<ImageWrapper, AppManagerError>(
            AppManagerError::ImageError { error },
        ),
{
    match loaded {
        Ok(image) => Ok(image),
        Err(error) => Err(AppManagerError::ImageError { error }),
    }
}

/// What happened since the last step of a transition request.
pub enum TransitionEvent {
    /// A transition to the next wallpaper is requested.
    Begin,
    /// The wallpaper was handed to the outputs.
    Sent,
    /// The outputs could not be reached.
    SendFailed,
    /// What loading the picked file gave.
    Loaded(Result<ImageWrapper, ImageWrapperError>),
}

/// What the daemon is to do next for a transition request.
pub enum TransitionStep {
    /// Hand this wallpaper to all outputs.
    Send(ImageWrapper),
    /// Load the file at this path as the wallpaper after.
    Load(String),
    /// Nothing more; the request is done.
    Finished,
}

/// What one step of a transition request does, by the event: `Begin`
/// with a wallpaper ready sends it and keeps none ready; `Sent`, or `Begin`
/// with none ready, picks the file to load next (the request finishes where
/// there is none); `SendFailed` finishes with none ready; `Loaded` makes
/// what was loaded the ready wallpaper (none where loading failed) and
/// finishes. The files found are kept.
pub open spec fn transition_outcome(
    before: AppManager,
    event: TransitionEvent,
    after: AppManager,
    step: TransitionStep,
) -> bool {
    let files = before.spec_selector().spec_matching_files();
    &&& after.spec_selector().spec_matching_files() == files
    &&& event is Begin && before.spec_next_image() is Some ==> step == TransitionStep::Send(
        before.spec_next_image()->0,
    ) && after.spec_next_image() is None && after.spec_selector() == before.spec_selector()
    &&& (event is Sent || (event is Begin && before.spec_next_image() is None)) ==> {
        &&& after.spec_next_image() is None
        &&& files.len() == 0 ==> step is Finished
        &&& files.len() > 0 ==> (step matches TransitionStep::Load(path)
            && after.spec_selector().spec_prev_index() matches Some(i) && i < files.len() && path@
            == files[i as int])
    }
    &&& event is SendFailed ==> step is Finished && after.spec_next_image() is None
        && after.spec_selector() == before.spec_selector()
    &&& event matches TransitionEvent::Loaded(loaded) ==> step is Finished
        && after.spec_selector() == before.spec_selector() && (loaded matches Ok(image)
        ==> after.spec_next_image() == Some(image)) && (loaded is Err
        ==> after.spec_next_image() is None)
}

/// The wallpaper that was loaded is the one the next transition sends.
pub proof fn lemma_loaded_image_is_sent_next(
    m0: AppManager,
    m1: AppManager,
    m2: AppManager,
    image: ImageWrapper,
    s1: TransitionStep,
    s2: TransitionStep,
)
    requires
        transition_outcome(m0, TransitionEvent::Loaded(Ok(image)), m1, s1),
        transition_outcome(m1, TransitionEvent::Begin, m2, s2),
    ensures
        s1 is Finished,
        s2 == TransitionStep::Send(image),
        m2.spec_next_image() is None,
{
}

/// Keeps the wallpaper that the next transition shows.
pub struct AppManager {
    image_selector: RandomFileSelector,
    next_image: Option<ImageWrapper>,
}

impl AppManager {
    /// The wallpaper files.
    pub closed spec fn spec_selector(&self) -> RandomFileSelector {
        self.image_selector
    }

    /// The wallpaper that the next transition shows, if one is ready.
    pub closed spec fn spec_next_image(&self) -> Option<ImageWrapper> {
        self.next_image
    }

    /// A manager of the wallpaper files with the given wallpaper ready.
    pub fn new(image_selector: RandomFileSelector, next_image: Option<ImageWrapper>) -> (res:
        AppManager)
        ensures
            res.spec_selector() == image_selector,
            res.spec_next_image() == next_image,
    {
        AppManager { image_selector, next_image }
    }

    /// Picks the file of the wallpaper after: on success that file is to be
    /// loaded, else there will be none.
    fn prepare_following(&mut self) -> (res: TransitionStep)
        requires
            old(self).spec_next_image() is None,
        ensures
            final(self).spec_selector().spec_matching_files() == old(
                self,
            ).spec_selector().spec_matching_files(),
            final(self).spec_next_image() is None,
            old(self).spec_selector().spec_matching_files().len() == 0 ==> res is Finished,
            old(self).spec_selector().spec_matching_files().len() > 0 ==> (res matches TransitionStep::Load(path)
                && final(self).spec_selector().spec_prev_index() matches Some(i) && i < old(
                self,
            ).spec_selector().spec_matching_files().len() && path@ == old(
                self,
            ).spec_selector().spec_matching_files()[i as int]),
    {
        match self.image_selector.pick_next() {
            Ok(path) => TransitionStep::Load(path),
            Err(_) => TransitionStep::Finished,
        }
    }

    /// One step of a request for a transition to a random wallpaper. On
    /// `Begin`, the ready wallpaper is to be sent to the outputs (where none
    /// is ready, the request goes on without a transition). Once it is sent,
    /// or where none was, the file of the wallpaper after is picked and is to
    /// be loaded (where none can be picked, there will be none). What was
    /// loaded becomes the ready wallpaper, or none where it failed. Where the
    /// outputs cannot be reached, the request stops there.
    pub fn start_transition_all_random(&mut self, event: TransitionEvent) -> (res: TransitionStep)
        ensures
            transition_outcome(*old(self), event, *final(self), res),
    {
        match event {
            TransitionEvent::Begin => {
                match self.next_image.take() {
                    Some(image) => TransitionStep::Send(image),
                    None => self.prepare_following(),
                }
            },
            TransitionEvent::Sent => {
                self.next_image = None;
                self.prepare_following()
            },
            TransitionEvent::SendFailed => {
                self.next_image = None;
                TransitionStep::Finished
            },
            TransitionEvent::Loaded(loaded) => {
                self.next_image = match loaded {
                    Ok(image) => Some(image),
                    Err(_) => None,
                };
                TransitionStep::Finished
            },
        }
    }
}

} // verus!
