//! The fetch of a dataset as a state machine.
//!
//! A [`Fetcher`] decides, stage by stage, which step comes next: create the
//! dataset's directory, check for a local archive, download it when absent,
//! extract it, walk the extracted tree. The caller performs the step that
//! [`Fetcher::next_action`] names and reports its outcome through
//! [`Fetcher::on_event`], until the action is [`Action::Finish`]. The first
//! failure ends the fetch.
use crate::source::{
    archive_name, archive_of, data_path, is_component, is_safe_name, join, DataSource,
};
use crate::summary::{total_size, walked, Entry, SampleData};
use vstd::prelude::*;

verus! {

/// Why a fetch failed.
#[derive(Clone, Debug, PartialEq, Eq)]
pub enum FetchError {
    /// The dataset's directory could not be created.
    Io(String),
    /// The archive could not be downloaded or written.
    Download(String),
    /// The archive could not be opened or extracted.
    Extraction(String),
    /// The dataset's root directory could not be resolved.
    PathResolution,
    /// The total size of the dataset does not fit in a `u64`.
    SizeOverflow,
}

/// Where a fetch stands.
pub enum Stage {
    /// The dataset's directory is to be created.
    CreateDir,
    /// The local archive is to be looked for.
    CheckArchive,
    /// The archive is to be downloaded.
    Download,
    /// The archive is to be extracted.
    Unzip,
    /// The extracted tree is to be walked.
    Walk,
    /// The fetch is over, with this outcome.
    Done(Result<SampleData, FetchError>),
}

/// The step that the caller is to perform next.
pub enum Action {
    /// Create directory `dir` and its parents; an existing one is no error.
    CreateDir { dir: String },
    /// Tell whether a regular file exists at `archive`.
    CheckArchive { archive: String },
    /// GET `url` and write the response body to `archive`, creating or
    /// truncating it.
    Download { url: String, archive: String },
    /// Open `archive` and extract all its entries into `dir`.
    Unzip { archive: String, dir: String },
    /// Walk `dir` recursively and report every entry met strictly below it;
    /// `dir` itself is not reported.
    Walk { dir: String },
    /// Nothing is left to do: [`Fetcher::outcome`] holds the result.
    Finish,
}

/// The outcome of a step, as the caller reports it.
pub enum Event {
    /// The directory was created, or why not.
    DirCreated(Result<(), String>),
    /// Whether a regular file exists at the archive path.
    ArchiveChecked(bool),
    /// The archive was downloaded and written, or why not.
    Downloaded(Result<(), String>),
    /// The archive was extracted, or why not.
    Unzipped(Result<(), String>),
    /// Every entry that the walk met strictly below the dataset's directory,
    /// in order; an `Err` for an entry that failed in the walk itself.
    Walked(Vec<Result<Entry, String>>),
}

/// The fetch of one dataset.
pub struct Fetcher {
    /// Name of the dataset: the directory it is extracted into.
    pub name: String,
    /// URL of the archive.
    pub url: String,
    /// Path of the local archive.
    pub archive: String,
    /// Directory under which the dataset's root is resolved.
    pub base: String,
    /// Where the fetch stands.
    pub stage: Stage,
}

/// Position of a stage in the order in which a fetch goes through them.
pub open spec fn rank(stage: Stage) -> int {
    match stage {
        Stage::CreateDir => 0,
        Stage::CheckArchive => 1,
        Stage::Download => 2,
        Stage::Unzip => 3,
        Stage::Walk => 4,
        Stage::Done(_) => 5,
    }
}

impl Fetcher {
    /// The fetcher holds the names derived from its dataset's name.
    pub open spec fn wf(&self) -> bool {
        self.archive@ == archive_of(self.name@)
    }

    /// This fetcher, now at `stage`.
    pub open spec fn at(self, stage: Stage) -> Fetcher {
        Fetcher { stage, ..self }
    }

    /// `a` is the step that this fetcher asks for.
    pub open spec fn asks(&self, a: Action) -> bool {
        match self.stage {
            Stage::CreateDir => a matches Action::CreateDir { dir } && dir@ == self.name@,
            Stage::CheckArchive => a matches Action::CheckArchive { archive } && archive@
                == self.archive@,
            Stage::Download => a matches Action::Download { url, archive } && url@ == self.url@
                && archive@ == self.archive@,
            Stage::Unzip => a matches Action::Unzip { archive, dir } && archive@ == self.archive@
                && dir@ == self.name@,
            Stage::Walk => a matches Action::Walk { dir } && dir@ == self.name@,
            Stage::Done(_) => a is Finish,
        }
    }

    /// `r` is how a fetch ends whose walk reported `walk`.
    pub open spec fn ends_with(
        &self,
        walk: Seq<Result<Entry, String>>,
        r: Result<SampleData, FetchError>,
    ) -> bool {
        if !is_component(self.name@) {
            r == Err::<SampleData, FetchError>(FetchError::PathResolution)
        } else if total_size(walked(walk)) > u64::MAX {
            r == Err::<SampleData, FetchError>(FetchError::SizeOverflow)
        } else {
            r matches Ok(d) && d.describes(join(self.base@, self.name@), self.archive@, walk)
        }
    }

    /// `next` is where this fetcher stands once `ev` is reported. An event
    /// that does not answer the current stage leaves the fetcher as it is.
    pub open spec fn steps(self, ev: Event, next: Fetcher) -> bool {
        match (self.stage, ev) {
            (Stage::CreateDir, Event::DirCreated(Ok(()))) => next == self.at(Stage::CheckArchive),
            (Stage::CreateDir, Event::DirCreated(Err(e))) => next == self.at(
                Stage::Done(Err(FetchError::Io(e))),
            ),
            (Stage::CheckArchive, Event::ArchiveChecked(present)) => next == self.at(
                if present {
                    Stage::Unzip
                } else {
                    Stage::Download
                },
            ),
            (Stage::Download, Event::Downloaded(Ok(()))) => next == self.at(Stage::Unzip),
            (Stage::Download, Event::Downloaded(Err(e))) => next == self.at(
                Stage::Done(Err(FetchError::Download(e))),
            ),
            (Stage::Unzip, Event::Unzipped(Ok(()))) => next == self.at(Stage::Walk),
            (Stage::Unzip, Event::Unzipped(Err(e))) => next == self.at(
                Stage::Done(Err(FetchError::Extraction(e))),
            ),
            (Stage::Walk, Event::Walked(walk)) => {
                &&& next.name == self.name
                &&& next.url == self.url
                &&& next.archive == self.archive
                &&& next.base == self.base
                &&& next.stage matches Stage::Done(r) && self.ends_with(walk@, r)
            },
            _ => next == self,
        }
    }

    /// Starts the fetch of `source`, whose root directory is resolved under
    /// `base` (an empty `base` is the working directory).
    ///
    /// A name that is empty or holds a path separator cannot give a root: the
    /// fetch is then over before any step, with `PathResolution`.
    pub fn new(source: &DataSource, base: &str) -> (r: Fetcher)
        ensures
            r.wf(),
            r.name@ == source.name@,
            r.url@ == source.url@,
            r.base@ == base@,
            is_component(source.name@) ==> r.stage is CreateDir,
            !is_component(source.name@) ==> r.stage == Stage::Done(
                Err(FetchError::PathResolution),
            ),
    {
        let stage = if is_safe_name(source.name) {
            Stage::CreateDir
        } else {
            Stage::Done(Err(FetchError::PathResolution))
        };
        Fetcher {
            name: source.name.to_owned(),
            url: source.url.to_owned(),
            archive: archive_name(source.name),
            base: base.to_owned(),
            stage,
        }
    }

    /// The step to perform next.
    pub fn next_action(&self) -> (a: Action)
        ensures
            self.asks(a),
    {
        match &self.stage {
            Stage::CreateDir => Action::CreateDir { dir: self.name.clone() },
            Stage::CheckArchive => Action::CheckArchive { archive: self.archive.clone() },
            Stage::Download => Action::Download {
                url: self.url.clone(),
                archive: self.archive.clone(),
            },
            Stage::Unzip => Action::Unzip { archive: self.archive.clone(), dir: self.name.clone() },
            Stage::Walk => Action::Walk { dir: self.name.clone() },
            Stage::Done(_) => Action::Finish,
        }
    }

    /// Takes in the outcome of the step that was performed.
    pub fn on_event(&mut self, ev: Event)
        ensures
            old(self).steps(ev, *final(self)),
    {
        let next = match (&self.stage, ev) {
            (Stage::CreateDir, Event::DirCreated(Ok(()))) => Stage::CheckArchive,
            (Stage::CreateDir, Event::DirCreated(Err(e))) => Stage::Done(Err(FetchError::Io(e))),
            (Stage::CheckArchive, Event::ArchiveChecked(present)) => if present {
                Stage::Unzip
            } else {
                Stage::Download
            },
            (Stage::Download, Event::Downloaded(Ok(()))) => Stage::Unzip,
            (Stage::Download, Event::Downloaded(Err(e))) => Stage::Done(
                Err(FetchError::Download(e)),
            ),
            (Stage::Unzip, Event::Unzipped(Ok(()))) => Stage::Walk,
            (Stage::Unzip, Event::Unzipped(Err(e))) => Stage::Done(
                Err(FetchError::Extraction(e)),
            ),
            (Stage::Walk, Event::Walked(walk)) => Stage::Done(self.finish(&walk)),
            _ => return ,
        };
        self.stage = next;
    }

    /// Resolves the dataset's root and summarises the walk `walk` of its tree.
    fn finish(&self, walk: &Vec<Result<Entry, String>>) -> (r: Result<SampleData, FetchError>)
        ensures
            self.ends_with(walk@, r),
    {
        match data_path(self.base.as_str(), self.name.as_str()) {
            None => Err(FetchError::PathResolution),
            Some(root) => match SampleData::from_walk(root, self.archive.clone(), walk) {
                None => Err(FetchError::SizeOverflow),
                Some(d) => Ok(d),
            },
        }
    }

    /// The outcome of the fetch, once it is over.
    pub fn outcome(self) -> (r: Option<Result<SampleData, FetchError>>)
        ensures
            r is Some <==> self.stage is Done,
            r matches Some(x) ==> self.stage == Stage::Done(x),
    {
        match self.stage {
            Stage::Done(x) => Some(x),
            _ => None,
        }
    }
}

} // verus!
