//! Transitions requested by path: each request picks another wallpaper
//! than the one shown last.
use vstd::prelude::*;

use crate::random_file::{
    collected_paths,
    first_failure,
    search_error,
    normalized_extension,
    select_random_file,
    texts,
    DirectoryScan,
    RandomFileError,
};

verus! {

/// A command to the drawing thread that names the wallpaper by its path.
pub enum Commands {
    StartTransition { image_path: String },
}

/// The extensions of the wallpapers a request picks from.
pub open spec fn request_extensions() -> Seq<Seq<char>> {
    seq![".jpg"@, ".png"@]
}

/// The files a request can pick from: the `.jpg` and `.png` files of the
/// scans read, other than the one picked last.
pub open spec fn request_candidates(prev: Option<String>, scans: Seq<DirectoryScan>) -> Seq<
    Seq<char>,
> {
    collected_paths(
        scans,
        request_extensions().map_values(|e: Seq<char>| normalized_extension(e)),
        seq![
            match prev {
                Some(p) => p@,
                None => Seq::<char>::empty(),
            },
        ],
    )
}

/// Picks a wallpaper for each transition request, never the one it picked
/// last.
pub struct TransitionService {
    prev_image_path: Option<String>,
}

impl TransitionService {
    /// The path picked last, if any.
    pub closed spec fn spec_prev_image_path(&self) -> Option<String> {
        self.prev_image_path
    }

    /// A service that has picked nothing yet.
    pub fn new() -> (res: TransitionService)
        ensures
            res.spec_prev_image_path() is None,
    {
        TransitionService { prev_image_path: None }
    }

    /// The command for the next transition: a random `.jpg` or `.png` file
    /// of the directories (`scans` is what reading each of them gave, in
    /// order) other than the one picked last. The picked path is
    /// remembered; where no file can be picked, the error is given and
    /// nothing is remembered.
    pub fn start_transition(&mut self, directories: &[String], scans: Vec<DirectoryScan>) -> (res:
        Result<Commands, RandomFileError>)
        requires
            scans@.len() == directories@.len(),
        ensures
            directories@.len() == 0 ==> res matches Err(RandomFileError::NoDirectories),
            directories@.len() > 0 && first_failure(scans@) is Some ==> (res matches Err(e)
                && search_error(texts(directories@), scans@, e)),
            directories@.len() > 0 && first_failure(scans@) is None && request_candidates(
                old(self).spec_prev_image_path(),
                scans@,
            ).len() == 0 ==> (res matches Err(RandomFileError::NoMatchingFiles { extensions })
                && texts(extensions@) == request_extensions().map_values(
                |e: Seq<char>| normalized_extension(e),
            )),
            directories@.len() > 0 && first_failure(scans@) is None && request_candidates(
                old(self).spec_prev_image_path(),
                scans@,
            ).len() > 0 ==> (res matches Ok(Commands::StartTransition { image_path })
                && request_candidates(old(self).spec_prev_image_path(), scans@).contains(
                image_path@,
            ) && (final(self).spec_prev_image_path() matches Some(p) && p@ == image_path@)),
            res is Err ==> final(self).spec_prev_image_path() == old(self).spec_prev_image_path(),
    {
        let excluded_path = match &self.prev_image_path {
            Some(p) => p.clone(),
            None => String::new(),
        };
        let mut excluded: Vec<String> = Vec::new();
        excluded.push(excluded_path);
        let mut extensions: Vec<String> = Vec::new();
        extensions.push(String::from_str(".jpg"));
        extensions.push(String::from_str(".png"));
        proof {
            assert(texts(extensions@) =~= request_extensions());
            assert(texts(excluded@) =~= seq![
                match self.prev_image_path {
                    Some(p) => p@,
                    None => Seq::<char>::empty(),
                },
            ]);
        }
        match select_random_file(directories, scans, extensions.as_slice(), excluded.as_slice()) {
            Ok(path) => {
                self.prev_image_path = Some(path.clone());
                Ok(Commands::StartTransition { image_path: path })
            },
            Err(e) => Err(e),
        }
    }
}

impl Default for TransitionService {
    fn default() -> (res: TransitionService)
        ensures
            res.spec_prev_image_path() is None,
    {
        TransitionService::new()
    }
}

} // verus!
