use sample_data::{Action, DataSource, Entry, Event, FetchError, Fetcher, SampleData};

/// A stand-in for the network and the filesystem that records what is asked.
struct World {
    archive_present: bool,
    dir_result: Result<(), String>,
    download_result: Result<(), String>,
    unzip_result: Result<(), String>,
    walk: Vec<Result<Entry, String>>,
    actions: Vec<String>,
}

impl World {
    fn new(walk: Vec<Result<Entry, String>>) -> World {
        World {
            archive_present: false,
            dir_result: Ok(()),
            download_result: Ok(()),
            unzip_result: Ok(()),
            walk,
            actions: vec![],
        }
    }

    fn downloads(&self) -> usize {
        self.actions.iter().filter(|a| a.starts_with("download")).count()
    }

    fn fetch(&mut self, src: &DataSource, base: &str) -> Result<SampleData, FetchError> {
        let mut f = Fetcher::new(src, base);
        loop {
            let ev = match f.next_action() {
                Action::CreateDir { dir } => {
                    self.actions.push(format!("mkdir {}", dir));
                    Event::DirCreated(self.dir_result.clone())
                }
                Action::CheckArchive { archive } => {
                    self.actions.push(format!("check {}", archive));
                    Event::ArchiveChecked(self.archive_present)
                }
                Action::Download { url, archive } => {
                    self.actions.push(format!("download {} {}", url, archive));
                    if self.download_result.is_ok() {
                        self.archive_present = true;
                    }
                    Event::Downloaded(self.download_result.clone())
                }
                Action::Unzip { archive, dir } => {
                    self.actions.push(format!("unzip {} {}", archive, dir));
                    Event::Unzipped(self.unzip_result.clone())
                }
                Action::Walk { dir } => {
                    self.actions.push(format!("walk {}", dir));
                    Event::Walked(self.walk.clone())
                }
                Action::Finish => return f.outcome().expect("a finished fetch has an outcome"),
            };
            f.on_event(ev);
        }
    }
}

fn file(path: &str, len: u64) -> Result<Entry, String> {
    Ok(Entry { path: path.to_string(), len: Some(len) })
}

fn tiny() -> DataSource<'static> {
    DataSource { name: "Tiny", url: "https://example.org/tiny.zip" }
}

fn tiny_walk() -> Vec<Result<Entry, String>> {
    vec![file("Tiny/a.txt", 10), file("Tiny/b.txt", 12), file("Tiny/c.txt", 20)]
}

#[test]
fn end_to_end_tiny() {
    let mut w = World::new(tiny_walk());
    let first = w.fetch(&tiny(), "/data").unwrap();
    assert_eq!(first.num_files, 3);
    assert_eq!(first.size, 42);
    assert_eq!(first.files, vec!["Tiny/a.txt", "Tiny/b.txt", "Tiny/c.txt"]);
    assert_eq!(first.root, "/data/Tiny");
    assert_eq!(first.archive, "Tiny.zip");
    assert_eq!(
        w.actions,
        vec![
            "mkdir Tiny",
            "check Tiny.zip",
            "download https://example.org/tiny.zip Tiny.zip",
            "unzip Tiny.zip Tiny",
            "walk Tiny",
        ]
    );
    let second = w.fetch(&tiny(), "/data").unwrap();
    assert_eq!(second, first);
    assert_eq!(w.downloads(), 1);
}

#[test]
fn present_archive_is_reused() {
    let mut w = World::new(tiny_walk());
    w.archive_present = true;
    let d = w.fetch(&tiny(), "").unwrap();
    assert_eq!(w.downloads(), 0);
    assert_eq!(d.root, "Tiny");
    assert_eq!(w.actions, vec!["mkdir Tiny", "check Tiny.zip", "unzip Tiny.zip Tiny", "walk Tiny"]);
}

#[test]
fn download_failure_is_returned() {
    let mut w = World::new(tiny_walk());
    w.download_result = Err("connection refused".to_string());
    let r = w.fetch(&tiny(), "");
    assert_eq!(r, Err(FetchError::Download("connection refused".to_string())));
    assert!(!w.actions.iter().any(|a| a.starts_with("unzip") || a.starts_with("walk")));
}

#[test]
fn dir_failure_is_returned() {
    let mut w = World::new(tiny_walk());
    w.dir_result = Err("permission denied".to_string());
    let r = w.fetch(&tiny(), "");
    assert_eq!(r, Err(FetchError::Io("permission denied".to_string())));
    assert_eq!(w.actions, vec!["mkdir Tiny"]);
}

#[test]
fn extraction_failure_is_returned() {
    let mut w = World::new(tiny_walk());
    w.unzip_result = Err("invalid zip archive".to_string());
    let r = w.fetch(&tiny(), "");
    assert_eq!(r, Err(FetchError::Extraction("invalid zip archive".to_string())));
    assert_eq!(w.downloads(), 1);
    assert!(!w.actions.iter().any(|a| a.starts_with("walk")));
}

#[test]
fn unresolvable_root_is_an_error() {
    let mut w = World::new(tiny_walk());
    let src = DataSource { name: "nested/set", url: "https://example.org/n.zip" };
    assert_eq!(w.fetch(&src, "/data"), Err(FetchError::PathResolution));
    assert!(w.actions.is_empty());
    let empty = DataSource { name: "", url: "https://example.org/n.zip" };
    assert_eq!(w.fetch(&empty, "/data"), Err(FetchError::PathResolution));
    assert!(w.actions.is_empty());
}

#[test]
fn oversized_dataset_is_an_error() {
    let mut w = World::new(vec![file("Tiny/a", u64::MAX), file("Tiny/b", 1)]);
    assert_eq!(w.fetch(&tiny(), ""), Err(FetchError::SizeOverflow));
    let mut w = World::new(vec![file("Tiny/a", u64::MAX - 1), file("Tiny/b", 1)]);
    assert_eq!(w.fetch(&tiny(), "").unwrap().size, u64::MAX);
}

#[test]
fn counts_and_sizes_of_a_walk() {
    let walk = vec![
        Ok(Entry { path: "Set".to_string(), len: Some(4096) }),
        Err("permission denied".to_string()),
        Ok(Entry { path: "Set/unreadable".to_string(), len: None }),
        file("Set/x", 7),
    ];
    let d = SampleData::from_walk("Set".to_string(), "Set.zip".to_string(), &walk).unwrap();
    assert_eq!(d.num_files, 3);
    assert_eq!(d.size, 4103);
    assert_eq!(d.files, vec!["Set", "Set/unreadable", "Set/x"]);
    assert_eq!(d.root, "Set");
    assert_eq!(d.archive, "Set.zip");
}

#[test]
fn empty_walk() {
    let d = SampleData::from_walk("E".to_string(), "E.zip".to_string(), &vec![]).unwrap();
    assert_eq!(d.num_files, 0);
    assert_eq!(d.size, 0);
    assert!(d.files.is_empty());
}

#[test]
fn unexpected_event_is_ignored() {
    let mut f = Fetcher::new(&tiny(), "");
    f.on_event(Event::ArchiveChecked(true));
    match f.next_action() {
        Action::CreateDir { dir } => assert_eq!(dir, "Tiny"),
        _ => panic!("an event for another stage must not move the fetch"),
    }
    assert!(f.outcome().is_none());
}

#[test]
fn reordered_walk_gives_same_description() {
    let mut w = World::new(tiny_walk());
    let first = w.fetch(&tiny(), "/data").unwrap();
    w.walk = vec![file("Tiny/c.txt", 20), file("Tiny/a.txt", 10), file("Tiny/b.txt", 12)];
    let second = w.fetch(&tiny(), "/data").unwrap();
    assert_eq!(w.downloads(), 1);
    assert_eq!((second.root.clone(), second.archive.clone()), (first.root.clone(), first.archive.clone()));
    assert_eq!((second.num_files, second.size), (first.num_files, first.size));
    let mut a = first.files.clone();
    let mut b = second.files.clone();
    a.sort();
    b.sort();
    assert_eq!(a, b);
}
