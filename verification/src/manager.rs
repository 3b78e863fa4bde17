//! The cameras that are managed, each under its id.

use vstd::prelude::*;

use http::HeaderMap;
use http::HeaderValue;

use crate::capture::CaptureAction;
use crate::capture::CaptureEvent;
use crate::capture::CaptureStep;
use crate::capture::EventModel;
use crate::config::ConfigModel;
use crate::error::ErrorModel;
use crate::request::has_bootstrap;
use crate::request::Query;
use crate::roster::all_wf;
use crate::roster::distinct;
use crate::roster::has_key;
use crate::roster::keyed;
use crate::roster::lemma_append;
use crate::roster::lemma_found;
use crate::roster::lemma_lookup;
use crate::roster::lemma_remove;
use crate::roster::lemma_replace;
use crate::roster::models;
use crate::text::same_text;
use crate::text::sort_texts;
use crate::worker::FrameNote;
use crate::worker::WorkerModel;

pub use crate::color::yuv_to_rgb;
pub use crate::config::CameraConfig;
pub use crate::error::CameraManagerError;
pub use crate::frame::build_mjpeg_chunk;
pub use crate::worker::CameraStateSnapshot;
pub use crate::worker::CameraWorker;

verus! {

/// The cameras that are managed. A camera keeps its place once it has one; its
/// worker may be replaced. A worker that was replaced while its capture loop ran
/// is kept until the loop ends: it publishes what it still captures, for those
/// who follow it.
pub struct CameraManager {
    workers: Vec<CameraWorker>,
    replaced: Vec<CameraWorker>,
}

/// The value of a manager.
pub struct ManagerModel {
    /// The workers that are in place, by the id of their camera.
    pub cameras: Map<Seq<char>, WorkerModel>,
    /// The workers that were replaced and still capture, by the id of their
    /// camera and their generation.
    pub replaced: Map<(Seq<char>, u64), WorkerModel>,
}

/// What came of asking for a camera.
pub enum Ensured {
    /// The worker of the camera has the configuration that was asked for.
    Running,
    /// A new worker is wanted: its capture thread is to be started, and then it
    /// is to be put in place.
    Start(CameraWorker),
}

/// The value of what came of asking for a camera.
pub enum EnsureModel {
    Running,
    Start { config: ConfigModel, generation: u64 },
    Failed(ErrorModel),
}

/// The id of the camera of a worker, as a key.
pub open spec fn camera_key() -> spec_fn(WorkerModel) -> Seq<char> {
    |worker: WorkerModel| worker.config.camera_id
}

/// The id of the camera and the generation of a worker, as a key.
pub open spec fn loop_key() -> spec_fn(WorkerModel) -> (Seq<char>, u64) {
    |worker: WorkerModel| (worker.config.camera_id, worker.generation)
}

impl ManagerModel {
    /// A manager without cameras.
    pub open spec fn empty() -> ManagerModel {
        ManagerModel { cameras: Map::empty(), replaced: Map::empty() }
    }

    /// The manager after a worker was put in the place of its camera. The one
    /// that was there before is kept while its capture loop runs.
    pub open spec fn with_worker(self, worker: WorkerModel) -> ManagerModel {
        let camera_id = worker.config.camera_id;
        ManagerModel {
            cameras: self.cameras.insert(camera_id, worker),
            replaced: if self.cameras.contains_key(camera_id)
                && self.cameras[camera_id].capturing {
                self.replaced.insert(
                    (camera_id, self.cameras[camera_id].generation),
                    self.cameras[camera_id],
                )
            } else {
                self.replaced
            },
        }
    }

    /// Every worker carries the id that it is found by. The ones that were
    /// replaced still capture, and are of an earlier generation than the one in
    /// the place of their camera.
    pub open spec fn orderly(self) -> bool {
        &&& forall|camera_id: Seq<char>| #[trigger]
            self.cameras.contains_key(camera_id) ==> self.cameras[camera_id].config.camera_id
                == camera_id
        &&& forall|camera_id: Seq<char>, generation: u64| #[trigger]
            self.replaced.contains_key((camera_id, generation)) ==> {
                let worker = self.replaced[(camera_id, generation)];
                &&& worker.config.camera_id == camera_id
                &&& worker.generation == generation
                &&& worker.capturing
                &&& self.cameras.contains_key(camera_id)
                &&& generation < self.cameras[camera_id].generation
            }
    }
}

/// The configuration of a camera, where it has a worker.
pub open spec fn existing_config(
    cameras: Map<Seq<char>, WorkerModel>,
    camera_id: Seq<char>,
) -> Option<ConfigModel> {
    if cameras.contains_key(camera_id) {
        Some(cameras[camera_id].config)
    } else {
        None
    }
}

/// The generation of the next worker of a camera.
pub open spec fn next_generation(
    cameras: Map<Seq<char>, WorkerModel>,
    camera_id: Seq<char>,
) -> u64 {
    if cameras.contains_key(camera_id) {
        crate::worker::next_count(cameras[camera_id].generation)
    } else {
        0
    }
}

/// The cameras after the worker of one, where it has one, was told to stop.
pub open spec fn with_stopped(
    cameras: Map<Seq<char>, WorkerModel>,
    camera_id: Seq<char>,
) -> Map<Seq<char>, WorkerModel> {
    if cameras.contains_key(camera_id) {
        cameras.insert(camera_id, cameras[camera_id].told_to_stop())
    } else {
        cameras
    }
}

/// The cameras after one was asked for, and what came of it. A worker with the
/// configuration that was asked for is used again. Any other worker of the
/// camera is told to stop, and a new one is wanted, unless its encoding cannot
/// be captured.
pub open spec fn ensured(
    cameras: Map<Seq<char>, WorkerModel>,
    camera_id: Seq<char>,
    fields: crate::config::FieldsModel,
    reading: Option<u32>,
) -> (Map<Seq<char>, WorkerModel>, EnsureModel) {
    match crate::config::requested_config(
        camera_id,
        fields,
        existing_config(cameras, camera_id),
        reading,
    ) {
        Err(error) => (cameras, EnsureModel::Failed(error)),
        Ok(config) => if cameras.contains_key(camera_id)
            && cameras[camera_id].config.captures_like(config) {
            (cameras, EnsureModel::Running)
        } else if crate::config::is_supported(config.capture_encoding) {
            (
                with_stopped(cameras, camera_id),
                EnsureModel::Start { config, generation: next_generation(cameras, camera_id) },
            )
        } else {
            (
                with_stopped(cameras, camera_id),
                EnsureModel::Failed(
                    ErrorModel::UnsupportedCaptureEncoding(config.capture_encoding),
                ),
            )
        },
    }
}

/// The cameras after one was asked for by a request that may name no field at
/// all, and what came of it. Such a request finds only a camera that there is.
pub open spec fn ensured_or_existing(
    cameras: Map<Seq<char>, WorkerModel>,
    camera_id: Seq<char>,
    query: Map<Seq<char>, Seq<char>>,
    headers: Map<Seq<char>, Seq<u8>>,
    reading: Option<u32>,
) -> (Map<Seq<char>, WorkerModel>, EnsureModel) {
    if cameras.contains_key(camera_id) || crate::request::names_bootstrap(query, headers) {
        ensured(cameras, camera_id, crate::config::requested_fields(query, headers), reading)
    } else {
        (cameras, EnsureModel::Failed(ErrorModel::CameraNotFound(camera_id)))
    }
}

/// A result says what came of asking for a camera.
pub open spec fn tells(r: Result<Ensured, CameraManagerError>, outcome: EnsureModel) -> bool {
    match outcome {
        EnsureModel::Running => r matches Ok(Ensured::Running),
        EnsureModel::Start { config, generation } => r matches Ok(Ensured::Start(worker))
            && worker.wf() && worker@.is_fresh(config, generation),
        EnsureModel::Failed(error) => r matches Err(e) && e@ == error,
    }
}

/// The ids of a row of camera states.
pub open spec fn snapshot_ids(list: Seq<CameraStateSnapshot>) -> Seq<Seq<char>> {
    list.map_values(|snapshot: CameraStateSnapshot| snapshot.camera_id@)
}

impl View for CameraManager {
    type V = ManagerModel;

    closed spec fn view(&self) -> ManagerModel {
        ManagerModel {
            cameras: keyed(models(self.workers@), camera_key()),
            replaced: keyed(models(self.replaced@), loop_key()),
        }
    }
}

impl Default for CameraManager {
    fn default() -> (r: Self)
        ensures
            r.wf(),
            r@ == ManagerModel::empty(),
    {
        CameraManager::test_new()
    }
}

impl CameraManager {
    /// Every worker is well formed, and no two are found by the same key.
    pub closed spec fn wf(&self) -> bool {
        &&& all_wf(self.workers@)
        &&& all_wf(self.replaced@)
        &&& distinct(models(self.workers@), camera_key())
        &&& distinct(models(self.replaced@), loop_key())
    }

    /// A manager without cameras.
    pub fn test_new() -> (r: Self)
        ensures
            r.wf(),
            r@ == ManagerModel::empty(),
    {
        let manager = CameraManager { workers: Vec::new(), replaced: Vec::new() };
        assert(manager@.cameras =~= Map::<Seq<char>, WorkerModel>::empty());
        assert(manager@.replaced =~= Map::<(Seq<char>, u64), WorkerModel>::empty());
        manager
    }

    /// The position of the worker in the place of a camera.
    fn position(&self, camera_id: &str) -> (r: Option<usize>)
        requires
            self.wf(),
        ensures
            match r {
                Some(i) => {
                    &&& has_key(models(self.workers@), camera_key(), i as int, camera_id@)
                    &&& self@.cameras.contains_key(camera_id@)
                    &&& self@.cameras[camera_id@] == self.workers@[i as int]@
                },
                None => !self@.cameras.contains_key(camera_id@),
            },
    {
        let mut i: usize = 0;
        while i < self.workers.len()
            invariant
                self.wf(),
                i <= self.workers@.len(),
                forall|j: int|
                    0 <= j < i ==> (#[trigger] models(self.workers@)[j]).config.camera_id
                        != camera_id@,
            decreases self.workers@.len() - i,
        {
            if same_text(self.workers[i].config().camera_id.as_str(), camera_id) {
                proof {
                    lemma_lookup(models(self.workers@), camera_key(), i as int);
                }
                return Some(i);
            }
            i += 1;
        }
        None
    }

    /// The position of a worker that was replaced.
    fn replaced_position(&self, camera_id: &str, generation: u64) -> (r: Option<usize>)
        requires
            self.wf(),
        ensures
            match r {
                Some(i) => {
                    &&& has_key(
                        models(self.replaced@),
                        loop_key(),
                        i as int,
                        (camera_id@, generation),
                    )
                    &&& self@.replaced.contains_key((camera_id@, generation))
                    &&& self@.replaced[(camera_id@, generation)] == self.replaced@[i as int]@
                },
                None => !self@.replaced.contains_key((camera_id@, generation)),
            },
    {
        let mut i: usize = 0;
        while i < self.replaced.len()
            invariant
                self.wf(),
                i <= self.replaced@.len(),
                forall|j: int|
                    0 <= j < i ==> loop_key()(#[trigger] models(self.replaced@)[j]) != (
                        camera_id@,
                        generation,
                    ),
            decreases self.replaced@.len() - i,
        {
            if self.replaced[i].generation() == generation && same_text(
                self.replaced[i].config().camera_id.as_str(),
                camera_id,
            ) {
                proof {
                    lemma_lookup(models(self.replaced@), loop_key(), i as int);
                }
                return Some(i);
            }
            i += 1;
        }
        None
    }

    /// Keeps a worker that was replaced.
    fn keep_replaced(&mut self, worker: CameraWorker)
        requires
            old(self).wf(),
            worker.wf(),
        ensures
            final(self).wf(),
            final(self)@ == (ManagerModel {
                replaced: old(self)@.replaced.insert(
                    (worker@.config.camera_id, worker@.generation),
                    worker@,
                ),
                ..old(self)@
            }),
    {
        let ghost before = models(self.replaced@);
        let ghost model = worker@;
        match self.replaced_position(worker.config().camera_id.as_str(), worker.generation()) {
            Some(i) => {
                self.replaced.set(i, worker);
                proof {
                    lemma_replace(before, loop_key(), i as int, model);
                    assert(models(self.replaced@) =~= before.update(i as int, model));
                }
            },
            None => {
                self.replaced.push(worker);
                proof {
                    lemma_append(before, loop_key(), model);
                    assert(models(self.replaced@) =~= before.push(model));
                }
            },
        }
    }

    /// Puts a worker in the place of its camera.
    fn install(&mut self, worker: CameraWorker)
        requires
            old(self).wf(),
            worker.wf(),
        ensures
            final(self).wf(),
            final(self)@ == old(self)@.with_worker(worker@),
    {
        let ghost before = models(self.workers@);
        let ghost model = worker@;
        match self.position(worker.config().camera_id.as_str()) {
            Some(i) => {
                let mut former: CameraWorker = worker;
                std::mem::swap(&mut self.workers[i], &mut former);
                proof {
                    lemma_replace(before, camera_key(), i as int, model);
                    assert(models(self.workers@) =~= before.update(i as int, model));
                }
                if former.is_capturing() {
                    self.keep_replaced(former);
                }
            },
            None => {
                self.workers.push(worker);
                proof {
                    lemma_append(before, camera_key(), model);
                    assert(models(self.workers@) =~= before.push(model));
                }
            },
        }
    }

    /// The worker of a camera, where it has one.
    pub fn get_existing(&self, camera_id: &str) -> (r: Option<&CameraWorker>)
        requires
            self.wf(),
        ensures
            match r {
                Some(worker) => {
                    &&& self@.cameras.contains_key(camera_id@)
                    &&& worker@ == self@.cameras[camera_id@]
                    &&& worker.wf()
                },
                None => !self@.cameras.contains_key(camera_id@),
            },
    {
        match self.position(camera_id) {
            Some(i) => Some(&self.workers[i]),
            None => None,
        }
    }

    /// Tells the worker of a camera to stop. Says whether the camera has one.
    pub fn stop_existing(&mut self, camera_id: &str) -> (found: bool)
        requires
            old(self).wf(),
        ensures
            final(self).wf(),
            final(self)@ == (ManagerModel {
                cameras: with_stopped(old(self)@.cameras, camera_id@),
                ..old(self)@
            }),
            found == old(self)@.cameras.contains_key(camera_id@),
    {
        match self.position(camera_id) {
            Some(i) => {
                let ghost before = models(self.workers@);
                self.workers[i].stop();
                proof {
                    let model = before[i as int].told_to_stop();
                    lemma_replace(before, camera_key(), i as int, model);
                    assert(models(self.workers@) =~= before.update(i as int, model));
                }
                true
            },
            None => false,
        }
    }

    /// Asks for a camera in the configuration that a request names. Where a new
    /// worker is wanted, the caller starts its capture thread and hands the
    /// outcome to `complete_start`. `reading` is the frame rate text of the
    /// request read with floating point, where that gives a number.
    pub fn ensure_camera(
        &mut self,
        camera_id: &str,
        query: &Query,
        headers: &HeaderMap<HeaderValue>,
        reading: Option<u32>,
    ) -> (r: Result<Ensured, CameraManagerError>)
        requires
            old(self).wf(),
        ensures
            final(self).wf(),
            ({
                let (cameras, outcome) = ensured(
                    old(self)@.cameras,
                    camera_id@,
                    crate::config::requested_fields(
                        query@,
                        crate::request::header_entries(*headers),
                    ),
                    reading,
                );
                final(self)@ == (ManagerModel { cameras, ..old(self)@ }) && tells(r, outcome)
            }),
    {
        let place: Option<usize> = self.position(camera_id);
        let existing: Option<&CameraConfig> = match place {
            Some(i) => Some(self.workers[i].config()),
            None => None,
        };
        let config: CameraConfig = match CameraConfig::from_request(
            camera_id,
            query,
            headers,
            existing,
            reading,
        ) {
            Ok(config) => config,
            Err(error) => {
                return Err(error);
            },
        };
        let generation: u64 = match place {
            Some(i) => {
                if *self.workers[i].config() == config {
                    return Ok(Ensured::Running);
                }
                let next: u64 = self.workers[i].generation().wrapping_add(1);
                self.stop_existing(camera_id);
                next
            },
            None => 0,
        };
        match CameraWorker::spawn_live(config, generation) {
            Ok(worker) => Ok(Ensured::Start(worker)),
            Err(error) => Err(error),
        }
    }

    /// Puts a new worker in place once its capture thread was started, or says
    /// why it was not. The worker that was in place before captures on until its
    /// loop ends.
    pub fn complete_start(
        &mut self,
        worker: CameraWorker,
        started: Result<(), String>,
    ) -> (r: Result<(), CameraManagerError>)
        requires
            old(self).wf(),
            worker.wf(),
        ensures
            final(self).wf(),
            match started {
                Ok(_) => {
                    &&& r is Ok
                    &&& final(self)@ == old(self)@.with_worker(worker@)
                },
                Err(message) => {
                    &&& r matches Err(error) && error@ == ErrorModel::WorkerInitialization(message@)
                    &&& final(self)@ == old(self)@
                },
            },
    {
        match started {
            Ok(_) => {
                self.install(worker);
                Ok(())
            },
            Err(message) => Err(CameraManagerError::WorkerInitialization(message)),
        }
    }

    /// Asks for a camera. A request that names no field of a configuration finds
    /// only a camera that there is.
    pub fn ensure_or_get_existing(
        &mut self,
        camera_id: &str,
        query: &Query,
        headers: &HeaderMap<HeaderValue>,
        reading: Option<u32>,
    ) -> (r: Result<Ensured, CameraManagerError>)
        requires
            old(self).wf(),
        ensures
            final(self).wf(),
            ({
                let (cameras, outcome) = ensured_or_existing(
                    old(self)@.cameras,
                    camera_id@,
                    query@,
                    crate::request::header_entries(*headers),
                    reading,
                );
                final(self)@ == (ManagerModel { cameras, ..old(self)@ }) && tells(r, outcome)
            }),
    {
        if self.get_existing(camera_id).is_some() || has_bootstrap(query, headers) {
            self.ensure_camera(camera_id, query, headers, reading)
        } else {
            Err(CameraManagerError::CameraNotFound(camera_id.to_owned()))
        }
    }

    /// The state of every camera, each once, in no particular order.
    pub fn list_cameras(&self) -> (r: Vec<CameraStateSnapshot>)
        requires
            self.wf(),
        ensures
            snapshot_ids(r@).no_duplicates(),
            snapshot_ids(r@).to_set() == self@.cameras.dom(),
            forall|i: int|
                0 <= i < r@.len() ==> (#[trigger] r@[i])@
                    == self@.cameras[r@[i].camera_id@].snapshot(),
    {
        let mut list: Vec<CameraStateSnapshot> = Vec::new();
        let mut i: usize = 0;
        while i < self.workers.len()
            invariant
                i <= self.workers@.len(),
                list@.len() == i,
                forall|j: int|
                    0 <= j < i ==> (#[trigger] list@[j])@ == self.workers@[j]@.snapshot(),
            decreases self.workers@.len() - i,
        {
            list.push(self.workers[i].snapshot());
            i += 1;
        }
        proof {
            let workers = models(self.workers@);
            assert forall|j: int| 0 <= j < list@.len() implies {
                let state = #[trigger] list@[j];
                &&& snapshot_ids(list@)[j] == workers[j].config.camera_id
                &&& state@ == self@.cameras[state.camera_id@].snapshot()
            } by {
                lemma_lookup(workers, camera_key(), j);
                assert(list@[j]@.camera_id == list@[j].camera_id@);
            }
            lemma_ids_cover(workers, snapshot_ids(list@));
        }
        list
    }

    /// The ids of all cameras, each once, in lexicographic order.
    pub fn active_camera_ids(&self) -> (r: Vec<String>)
        requires
            self.wf(),
        ensures
            crate::text::in_order(crate::text::texts(r@)),
            crate::text::texts(r@).no_duplicates(),
            crate::text::texts(r@).to_set() == self@.cameras.dom(),
    {
        let mut ids: Vec<String> = Vec::new();
        let mut i: usize = 0;
        while i < self.workers.len()
            invariant
                i <= self.workers@.len(),
                ids@.len() == i,
                forall|j: int|
                    0 <= j < i ==> (#[trigger] ids@[j])@ == self.workers@[j]@.config.camera_id,
            decreases self.workers@.len() - i,
        {
            ids.push(self.workers[i].config().camera_id.clone());
            i += 1;
        }
        let ghost unsorted = crate::text::texts(ids@);
        let sorted: Vec<String> = sort_texts(ids);
        proof {
            lemma_ids_cover(models(self.workers@), unsorted);
            lemma_same_members(unsorted, crate::text::texts(sorted@));
        }
        sorted
    }

    /// Puts a worker in place that holds one given frame. A worker that was in
    /// place before is not told to stop: where it captures, it captures on, for
    /// those who follow it.
    pub fn register_static_frame(&mut self, config: CameraConfig, frame: Vec<u8>, now_ms: u128)
        requires
            old(self).wf(),
        ensures
            final(self).wf(),
            final(self)@.cameras.contains_key(config@.camera_id),
            final(self)@.cameras[config@.camera_id].is_static(
                config@,
                frame@,
                next_generation(old(self)@.cameras, config@.camera_id),
                now_ms,
            ),
            final(self)@ == old(self)@.with_worker(final(self)@.cameras[config@.camera_id]),
    {
        let generation: u64 = match self.get_existing(config.camera_id.as_str()) {
            Some(worker) => worker.generation().wrapping_add(1),
            None => 0,
        };
        let worker: CameraWorker = CameraWorker::from_static_frame(
            config,
            frame,
            generation,
            now_ms,
        );
        self.install(worker);
    }

    /// Takes one step of the capture loop of a worker, in the place of its
    /// camera or replaced. A replaced worker is let go when its loop ends. A
    /// worker that there is not is done.
    pub fn capture_step(
        &mut self,
        camera_id: &str,
        generation: u64,
        event: CaptureEvent,
        now_ms: u128,
    ) -> (step: CaptureStep)
        requires
            old(self).wf(),
        ensures
            final(self).wf(),
            (final(self)@, step@) == managed_transition(
                old(self)@,
                camera_id@,
                generation,
                event@,
                now_ms,
            ),
    {
        let ghost told = event@;
        if let Some(i) = self.position(camera_id) {
            if self.workers[i].generation() == generation {
                let ghost before = models(self.workers@);
                let step: CaptureStep = self.workers[i].capture_step(event, now_ms);
                proof {
                    let worker = before[i as int];
                    crate::capture::law_step_keeps_identity(worker, told, now_ms);
                    let after = crate::capture::capture_transition(worker, told, now_ms).0;
                    lemma_replace(before, camera_key(), i as int, after);
                    assert(models(self.workers@) =~= before.update(i as int, after));
                }
                return step;
            }
        }
        match self.replaced_position(camera_id, generation) {
            Some(i) => {
                let ghost before = models(self.replaced@);
                let step: CaptureStep = self.replaced[i].capture_step(event, now_ms);
                let ghost after = crate::capture::capture_transition(
                    before[i as int],
                    told,
                    now_ms,
                ).0;
                proof {
                    crate::capture::law_step_keeps_identity(before[i as int], told, now_ms);
                    lemma_replace(before, loop_key(), i as int, after);
                    assert(models(self.replaced@) =~= before.update(i as int, after));
                }
                if matches!(step.action, CaptureAction::Finish) {
                    let ghost stepped = models(self.replaced@);
                    self.replaced.remove(i);
                    proof {
                        lemma_remove(stepped, loop_key(), i as int);
                        assert(models(self.replaced@) =~= stepped.remove(i as int));
                        let key = (camera_id@, generation);
                        let kept = old(self)@.replaced;
                        assert(kept.insert(key, after).remove(key) =~= kept.remove(key));
                    }
                }
                step
            },
            None => CaptureStep { action: CaptureAction::Finish, note: FrameNote::Quiet },
        }
    }
}

/// The manager after a step of the capture loop of one of its workers, and that
/// step.
pub open spec fn managed_transition(
    manager: ManagerModel,
    camera_id: Seq<char>,
    generation: u64,
    event: EventModel,
    now_ms: u128,
) -> (ManagerModel, crate::capture::StepModel) {
    let key = (camera_id, generation);
    if manager.cameras.contains_key(camera_id) && manager.cameras[camera_id].generation
        == generation {
        let (worker, step) = crate::capture::capture_transition(
            manager.cameras[camera_id],
            event,
            now_ms,
        );
        (ManagerModel { cameras: manager.cameras.insert(camera_id, worker), ..manager }, step)
    } else if manager.replaced.contains_key(key) {
        let (worker, step) = crate::capture::capture_transition(
            manager.replaced[key],
            event,
            now_ms,
        );
        let replaced = if step.action is Finish {
            manager.replaced.remove(key)
        } else {
            manager.replaced.insert(key, worker)
        };
        (ManagerModel { replaced, ..manager }, step)
    } else {
        (
            manager,
            crate::capture::StepModel {
                action: crate::capture::ActionModel::Finish,
                note: FrameNote::Quiet,
            },
        )
    }
}

/// The ids of all workers are those of the cameras, each once.
proof fn lemma_ids_cover(workers: Seq<WorkerModel>, ids: Seq<Seq<char>>)
    requires
        distinct(workers, camera_key()),
        ids.len() == workers.len(),
        forall|i: int| 0 <= i < ids.len() ==> #[trigger] ids[i] == workers[i].config.camera_id,
    ensures
        ids.no_duplicates(),
        ids.to_set() == keyed(workers, camera_key()).dom(),
{
    let cameras = keyed(workers, camera_key());
    assert forall|camera_id: Seq<char>| ids.to_set().contains(camera_id)
        == cameras.dom().contains(camera_id) by {
        if ids.contains(camera_id) {
            let i = ids.index_of(camera_id);
            lemma_lookup(workers, camera_key(), i);
        }
        if cameras.contains_key(camera_id) {
            let i = choose|i: int| has_key(workers, camera_key(), i, camera_id);
            assert(ids[i] == camera_id);
        }
    }
    assert(ids.to_set() =~= cameras.dom());
}

/// A row with the members of one without duplicates has none either, and the
/// same set of members.
proof fn lemma_same_members(a: Seq<Seq<char>>, b: Seq<Seq<char>>)
    requires
        a.no_duplicates(),
        a.to_multiset() == b.to_multiset(),
    ensures
        b.no_duplicates(),
        a.to_set() == b.to_set(),
{
    a.lemma_multiset_has_no_duplicates();
    b.lemma_multiset_has_no_duplicates_conv();
    assert forall|x: Seq<char>| a.to_set().contains(x) == b.to_set().contains(x) by {
        vstd::seq_lib::to_multiset_contains(a, x);
        vstd::seq_lib::to_multiset_contains(b, x);
    }
    assert(a.to_set() =~= b.to_set());
}

/// The worker in the place of a camera carries the id of the camera.
pub proof fn law_workers_carry_camera_id(manager: &CameraManager, camera_id: Seq<char>)
    requires
        manager.wf(),
        manager@.cameras.contains_key(camera_id),
    ensures
        manager@.cameras[camera_id].config.camera_id == camera_id,
{
    lemma_found(models(manager.workers@), camera_key(), camera_id);
}

/// Asking for a camera neither adds nor removes a camera, and leaves every
/// other camera as it is.
pub proof fn law_asking_leaves_other_cameras(
    cameras: Map<Seq<char>, WorkerModel>,
    camera_id: Seq<char>,
    other: Seq<char>,
    query: Map<Seq<char>, Seq<char>>,
    headers: Map<Seq<char>, Seq<u8>>,
    reading: Option<u32>,
)
    requires
        other != camera_id,
    ensures
        ({
            let after = ensured_or_existing(cameras, camera_id, query, headers, reading).0;
            &&& after.dom() == cameras.dom()
            &&& cameras.contains_key(other) ==> after[other] == cameras[other]
        }),
{
    let after = ensured_or_existing(cameras, camera_id, query, headers, reading).0;
    assert(after.dom() =~= cameras.dom());
}

/// A step of the capture loop of one camera neither adds nor removes a camera,
/// and leaves every other camera as it is, with the workers that it had before.
pub proof fn law_capture_leaves_other_cameras(
    manager: ManagerModel,
    camera_id: Seq<char>,
    other: Seq<char>,
    generation: u64,
    other_generation: u64,
    event: EventModel,
    now_ms: u128,
)
    requires
        other != camera_id,
    ensures
        ({
            let after = managed_transition(manager, camera_id, generation, event, now_ms).0;
            let key = (other, other_generation);
            &&& after.cameras.dom() == manager.cameras.dom()
            &&& manager.cameras.contains_key(other) ==> after.cameras[other]
                == manager.cameras[other]
            &&& after.replaced.contains_key(key) == manager.replaced.contains_key(key)
            &&& manager.replaced.contains_key(key) ==> after.replaced[key]
                == manager.replaced[key]
        }),
{
    let after = managed_transition(manager, camera_id, generation, event, now_ms).0;
    assert(after.cameras.dom() =~= manager.cameras.dom());
}

/// What the device of a camera captures is what the camera shows: a captured
/// frame that can be encoded becomes the latest frame of its worker.
pub proof fn law_captured_frame_is_shown(
    manager: ManagerModel,
    camera_id: Seq<char>,
    captured: Seq<u8>,
    image: Seq<u8>,
    now_ms: u128,
)
    requires
        manager.cameras.contains_key(camera_id),
        crate::capture::captured_image(manager.cameras[camera_id].config, Ok(captured)) == Ok::<
            Seq<u8>,
            Seq<char>,
        >(image),
    ensures
        ({
            let frame = crate::capture::FrameModel {
                config: manager.cameras[camera_id].config,
                captured: Ok(captured),
            };
            let after = managed_transition(
                manager,
                camera_id,
                manager.cameras[camera_id].generation,
                EventModel::Captured(frame),
                now_ms,
            ).0;
            after.cameras.contains_key(camera_id) && after.cameras[camera_id].frame == image
        }),
{
    crate::capture::law_captured_frame_is_published(
        manager.cameras[camera_id],
        captured,
        image,
        now_ms,
    );
}

/// A camera that nobody has configured is not found by a request that does not
/// configure it.
pub proof fn law_unknown_camera_is_not_found(
    cameras: Map<Seq<char>, WorkerModel>,
    camera_id: Seq<char>,
    query: Map<Seq<char>, Seq<char>>,
    headers: Map<Seq<char>, Seq<u8>>,
    reading: Option<u32>,
)
    requires
        !cameras.contains_key(camera_id),
        !crate::request::names_bootstrap(query, headers),
    ensures
        ensured_or_existing(cameras, camera_id, query, headers, reading) == (
            cameras,
            EnsureModel::Failed(ErrorModel::CameraNotFound(camera_id)),
        ),
{
}

/// A request that names no field finds a camera that there is, and changes
/// nothing, where the encoding of the camera is in upper case.
pub proof fn law_bare_request_finds_camera(
    cameras: Map<Seq<char>, WorkerModel>,
    camera_id: Seq<char>,
    query: Map<Seq<char>, Seq<char>>,
    headers: Map<Seq<char>, Seq<u8>>,
    reading: Option<u32>,
)
    requires
        cameras.contains_key(camera_id),
        cameras[camera_id].config.camera_id == camera_id,
        crate::config::uppercase(cameras[camera_id].config.capture_encoding)
            == cameras[camera_id].config.capture_encoding,
        !crate::request::names_bootstrap(query, headers),
    ensures
        ensured_or_existing(cameras, camera_id, query, headers, reading) == (
            cameras,
            EnsureModel::Running,
        ),
{
    crate::request::lemma_header_names_lower();
    crate::config::law_bare_request_keeps_config(camera_id, cameras[camera_id].config, reading);
}

/// A configuration that can be captured and that no worker of the camera has
/// makes a new worker wanted: the first one of a camera that has none, the next
/// one of a camera that has one.
pub proof fn law_new_configuration_wants_worker(
    cameras: Map<Seq<char>, WorkerModel>,
    camera_id: Seq<char>,
    fields: crate::config::FieldsModel,
    reading: Option<u32>,
    config: ConfigModel,
)
    requires
        crate::config::requested_config(
            camera_id,
            fields,
            existing_config(cameras, camera_id),
            reading,
        ) == Ok::<ConfigModel, ErrorModel>(config),
        crate::config::is_supported(config.capture_encoding),
        cameras.contains_key(camera_id) ==> !cameras[camera_id].config.captures_like(config),
    ensures
        ensured(cameras, camera_id, fields, reading) == (
            with_stopped(cameras, camera_id),
            EnsureModel::Start { config, generation: next_generation(cameras, camera_id) },
        ),
        config.camera_id == camera_id,
        cameras.contains_key(camera_id) ==> next_generation(cameras, camera_id)
            != cameras[camera_id].generation,
{
}

/// Where a new worker is wanted and put in place, the same request made again
/// finds it running, and changes nothing; and so does a request that names no
/// field.
pub proof fn law_repeated_request_reuses_worker(
    cameras: Map<Seq<char>, WorkerModel>,
    camera_id: Seq<char>,
    fields: crate::config::FieldsModel,
    reading: Option<u32>,
    config: ConfigModel,
    generation: u64,
    worker: WorkerModel,
    later_reading: Option<u32>,
)
    requires
        ensured(cameras, camera_id, fields, reading).1 == (EnsureModel::Start {
            config,
            generation,
        }),
        worker.is_fresh(config, generation),
    ensures
        worker.config.camera_id == camera_id,
        ({
            let started = ensured(cameras, camera_id, fields, reading).0.insert(
                camera_id,
                worker,
            );
            &&& ensured(started, camera_id, fields, reading) == (started, EnsureModel::Running)
            &&& ensured(started, camera_id, crate::config::no_fields(), later_reading) == (
                started,
                EnsureModel::Running,
            )
        }),
{
    crate::config::lemma_supported_upper(config.capture_encoding);
    crate::config::law_repeated_request_keeps_config(
        camera_id,
        fields,
        existing_config(cameras, camera_id),
        reading,
        config,
    );
    crate::config::law_bare_request_follows_request(
        camera_id,
        fields,
        existing_config(cameras, camera_id),
        reading,
        config,
        later_reading,
    );
}

/// Where a request finds a worker running, nothing has changed, the worker is
/// that of the camera, and the same request finds it again; and so does a
/// request that names no field, where the encoding that was asked for is ASCII
/// or that of the worker is in upper case.
pub proof fn law_found_worker_is_found_again(
    cameras: Map<Seq<char>, WorkerModel>,
    camera_id: Seq<char>,
    fields: crate::config::FieldsModel,
    reading: Option<u32>,
    later_reading: Option<u32>,
)
    requires
        ensured(cameras, camera_id, fields, reading).1 == EnsureModel::Running,
    ensures
        ensured(cameras, camera_id, fields, reading).0 == cameras,
        cameras.contains_key(camera_id),
        cameras[camera_id].config.camera_id == camera_id,
        ({
            ||| crate::config::encoding_source(
                fields,
                existing_config(cameras, camera_id),
            ) matches Some(text) && vstd::utf8::is_ascii_chars(text)
            ||| crate::config::uppercase(cameras[camera_id].config.capture_encoding)
                == cameras[camera_id].config.capture_encoding
        }) ==> ensured(cameras, camera_id, crate::config::no_fields(), later_reading) == (
            cameras,
            EnsureModel::Running,
        ),
{
    let existing = cameras[camera_id].config;
    crate::config::law_bare_request_keeps_config(camera_id, existing, later_reading);
    if let Some(text) = crate::config::encoding_source(
        fields,
        existing_config(cameras, camera_id),
    ) {
        if vstd::utf8::is_ascii_chars(text) {
            crate::config::lemma_uppercase_twice(text);
        }
    }
}

/// Replacing a worker by one of the next generation leaves the manager orderly,
/// and no capture is lost: the worker that was in place is kept where its loop
/// runs, and the ones that were replaced before it stay as they are.
pub proof fn law_replacing_loses_no_capture(manager: ManagerModel, worker: WorkerModel)
    requires
        manager.orderly(),
        worker.generation == next_generation(manager.cameras, worker.config.camera_id),
        manager.cameras.contains_key(worker.config.camera_id)
            ==> manager.cameras[worker.config.camera_id].generation < u64::MAX,
    ensures
        manager.with_worker(worker).orderly(),
        forall|key: (Seq<char>, u64)| #[trigger]
            manager.replaced.contains_key(key) ==> {
                &&& manager.with_worker(worker).replaced.contains_key(key)
                &&& manager.with_worker(worker).replaced[key] == manager.replaced[key]
            },
        ({
            let camera_id = worker.config.camera_id;
            let former = manager.cameras[camera_id];
            manager.cameras.contains_key(camera_id) && former.capturing ==> {
                let key = (camera_id, former.generation);
                &&& manager.with_worker(worker).replaced.contains_key(key)
                &&& manager.with_worker(worker).replaced[key] == former
            }
        }),
{
}

/// A manager is orderly from the start, and stays so when a camera is asked for,
/// when its worker is told to stop, and when a capture loop takes a step.
pub proof fn law_manager_stays_orderly(
    manager: ManagerModel,
    camera_id: Seq<char>,
    query: Map<Seq<char>, Seq<char>>,
    headers: Map<Seq<char>, Seq<u8>>,
    reading: Option<u32>,
    generation: u64,
    event: EventModel,
    now_ms: u128,
)
    ensures
        ManagerModel::empty().orderly(),
        manager.orderly() ==> {
            &&& (ManagerModel {
                cameras: ensured_or_existing(
                    manager.cameras,
                    camera_id,
                    query,
                    headers,
                    reading,
                ).0,
                ..manager
            }).orderly()
            &&& (ManagerModel {
                cameras: with_stopped(manager.cameras, camera_id),
                ..manager
            }).orderly()
            &&& managed_transition(manager, camera_id, generation, event, now_ms).0.orderly()
        },
{
    if manager.cameras.contains_key(camera_id) {
        crate::capture::law_step_keeps_identity(manager.cameras[camera_id], event, now_ms);
    }
    if manager.replaced.contains_key((camera_id, generation)) {
        crate::capture::law_step_keeps_identity(
            manager.replaced[(camera_id, generation)],
            event,
            now_ms,
        );
    }
}

/// A worker that was replaced while its loop ran captures on as before: its next
/// step is the one that it would have taken in its place, on the same channel,
/// and touches no camera. Its loop ends only where it was told to stop, and then
/// it is let go.
pub proof fn law_replaced_worker_captures_on(
    manager: ManagerModel,
    worker: WorkerModel,
    event: EventModel,
    now_ms: u128,
)
    requires
        manager.cameras.contains_key(worker.config.camera_id),
        manager.cameras[worker.config.camera_id].capturing,
        manager.cameras[worker.config.camera_id].generation != worker.generation,
    ensures
        ({
            let camera_id = worker.config.camera_id;
            let former = manager.cameras[camera_id];
            let key = (camera_id, former.generation);
            let (stepped, own_step) = crate::capture::capture_transition(former, event, now_ms);
            let (after, step) = managed_transition(
                manager.with_worker(worker),
                camera_id,
                former.generation,
                event,
                now_ms,
            );
            &&& step == own_step
            &&& stepped.channel == former.channel
            &&& after.cameras == manager.with_worker(worker).cameras
            &&& step.action is Finish ==> former.stopped && !after.replaced.contains_key(key)
            &&& !(step.action is Finish) ==> after.replaced.contains_key(key)
                && after.replaced[key] == stepped
        }),
{
    let former = manager.cameras[worker.config.camera_id];
    crate::capture::law_step_keeps_identity(former, event, now_ms);
}

/// Where a new worker is wanted for a camera that has one, the old one was told
/// to stop, and the new one is of another generation.
pub proof fn law_replaced_worker_was_told_to_stop(
    cameras: Map<Seq<char>, WorkerModel>,
    camera_id: Seq<char>,
    fields: crate::config::FieldsModel,
    reading: Option<u32>,
    config: ConfigModel,
    generation: u64,
)
    requires
        cameras.contains_key(camera_id),
        ensured(cameras, camera_id, fields, reading).1 == (EnsureModel::Start {
            config,
            generation,
        }),
    ensures
        ({
            let after = ensured(cameras, camera_id, fields, reading).0;
            &&& after.contains_key(camera_id)
            &&& after[camera_id] == cameras[camera_id].told_to_stop()
            &&& generation != cameras[camera_id].generation
        }),
{
}

/// An encoding that cannot be captured is refused with its upper-case name. A
/// worker that the camera had until then was told to stop and stays in place.
pub proof fn law_unsupported_encoding_is_refused(
    cameras: Map<Seq<char>, WorkerModel>,
    camera_id: Seq<char>,
    fields: crate::config::FieldsModel,
    reading: Option<u32>,
    config: ConfigModel,
)
    requires
        crate::config::requested_config(
            camera_id,
            fields,
            existing_config(cameras, camera_id),
            reading,
        ) == Ok::<ConfigModel, ErrorModel>(config),
        !crate::config::is_supported(config.capture_encoding),
        cameras.contains_key(camera_id) ==> !cameras[camera_id].config.captures_like(config),
    ensures
        ensured(cameras, camera_id, fields, reading) == (
            with_stopped(cameras, camera_id),
            EnsureModel::Failed(ErrorModel::UnsupportedCaptureEncoding(config.capture_encoding)),
        ),
{
}

/// A camera has the configuration of the worker in its place, where it has one.
pub proof fn law_existing_config_is_of_the_worker(
    cameras: Map<Seq<char>, WorkerModel>,
    camera_id: Seq<char>,
)
    ensures
        cameras.contains_key(camera_id) ==> existing_config(cameras, camera_id) == Some(
            cameras[camera_id].config,
        ),
        !cameras.contains_key(camera_id) ==> existing_config(cameras, camera_id) is None,
{
}

/// Where a request asks for the id, node, width, height, frame rate and encoding
/// that the worker of the camera has, the worker is used again and nothing changes,
/// whatever the worker has captured, whatever it is at, and however the request says
/// it.
pub proof fn law_same_configuration_is_used_again(
    cameras: Map<Seq<char>, WorkerModel>,
    camera_id: Seq<char>,
    fields: crate::config::FieldsModel,
    reading: Option<u32>,
    config: ConfigModel,
)
    requires
        cameras.contains_key(camera_id),
        crate::config::requested_config(
            camera_id,
            fields,
            Some(cameras[camera_id].config),
            reading,
        ) == Ok::<ConfigModel, ErrorModel>(config),
        config.camera_id == cameras[camera_id].config.camera_id,
        config.node == cameras[camera_id].config.node,
        config.width == cameras[camera_id].config.width,
        config.height == cameras[camera_id].config.height,
        config.framerate == cameras[camera_id].config.framerate,
        config.capture_encoding == cameras[camera_id].config.capture_encoding,
    ensures
        ensured(cameras, camera_id, fields, reading) == (cameras, EnsureModel::Running),
{
}

/// What is asked for depends on nothing of a worker but its configuration: whatever
/// else two workers differ in, both are used again or neither is.
pub proof fn law_only_the_configuration_decides(
    cameras: Map<Seq<char>, WorkerModel>,
    camera_id: Seq<char>,
    fields: crate::config::FieldsModel,
    reading: Option<u32>,
    worker: WorkerModel,
)
    requires
        cameras.contains_key(camera_id),
        worker.config == cameras[camera_id].config,
        worker.generation == cameras[camera_id].generation,
    ensures
        ensured(cameras.insert(camera_id, worker), camera_id, fields, reading).1 == ensured(
            cameras,
            camera_id,
            fields,
            reading,
        ).1,
{
    assert(cameras.insert(camera_id, worker)[camera_id] == worker);
}

/// Other cameras do not bear on what comes of asking for one.
pub proof fn law_other_cameras_do_not_decide(
    cameras: Map<Seq<char>, WorkerModel>,
    camera_id: Seq<char>,
    fields: crate::config::FieldsModel,
    reading: Option<u32>,
    other: Seq<char>,
    worker: WorkerModel,
)
    requires
        other != camera_id,
    ensures
        ensured(cameras.insert(other, worker), camera_id, fields, reading).1 == ensured(
            cameras,
            camera_id,
            fields,
            reading,
        ).1,
{
}

/// A request that is faulty is refused with its fault, and changes nothing.
pub proof fn law_faulty_request_changes_nothing(
    cameras: Map<Seq<char>, WorkerModel>,
    camera_id: Seq<char>,
    fields: crate::config::FieldsModel,
    reading: Option<u32>,
    error: ErrorModel,
)
    requires
        crate::config::requested_config(
            camera_id,
            fields,
            if cameras.contains_key(camera_id) {
                Some(cameras[camera_id].config)
            } else {
                None
            },
            reading,
        ) == Err::<ConfigModel, ErrorModel>(error),
    ensures
        ensured(cameras, camera_id, fields, reading) == (cameras, EnsureModel::Failed(error)),
{
}

/// One worker was told to stop, if there is one, and nothing else has changed.
pub open spec fn is_stopped_only(
    before: Map<Seq<char>, WorkerModel>,
    after: Map<Seq<char>, WorkerModel>,
    camera_id: Seq<char>,
) -> bool {
    &&& after.dom() == before.dom()
    &&& forall|other: Seq<char>|
        other != camera_id && before.contains_key(other) ==> #[trigger] after[other]
            == before[other]
    &&& before.contains_key(camera_id) ==> {
        &&& after[camera_id].stopped
        &&& crate::worker::is_same_worker(after[camera_id], before[camera_id])
        &&& crate::worker::shows_the_same(after[camera_id], before[camera_id])
        &&& after[camera_id].capturing == before[camera_id].capturing
        &&& after[camera_id].status == before[camera_id].status
        &&& after[camera_id].last_error == before[camera_id].last_error
    }
}

/// Telling the worker of a camera to stop does that and nothing else.
pub proof fn law_stopping_a_camera_leaves_the_rest(
    cameras: Map<Seq<char>, WorkerModel>,
    camera_id: Seq<char>,
)
    ensures
        is_stopped_only(cameras, with_stopped(cameras, camera_id), camera_id),
{
    assert(with_stopped(cameras, camera_id).dom() =~= cameras.dom());
}

/// Where a request asks for anything that the camera does not have, a worker that
/// it has is told to stop and nothing else changes. A new worker with the
/// configuration that was asked for is wanted where its encoding is YUYV or MJPG: of
/// generation nought for a new camera, else of the generation that follows the
/// last. Any other encoding is refused by its name.
pub proof fn law_changed_configuration_restarts(
    cameras: Map<Seq<char>, WorkerModel>,
    camera_id: Seq<char>,
    fields: crate::config::FieldsModel,
    reading: Option<u32>,
    config: ConfigModel,
)
    requires
        crate::config::requested_config(
            camera_id,
            fields,
            if cameras.contains_key(camera_id) {
                Some(cameras[camera_id].config)
            } else {
                None
            },
            reading,
        ) == Ok::<ConfigModel, ErrorModel>(config),
        cameras.contains_key(camera_id) ==> {
            let was = cameras[camera_id].config;
            ||| config.camera_id != was.camera_id
            ||| config.node != was.node
            ||| config.width != was.width
            ||| config.height != was.height
            ||| config.framerate != was.framerate
            ||| config.capture_encoding != was.capture_encoding
        },
    ensures
        ({
            let (after, outcome) = ensured(cameras, camera_id, fields, reading);
            let supported = config.capture_encoding == seq!['Y', 'U', 'Y', 'V']
                || config.capture_encoding == seq!['M', 'J', 'P', 'G'];
            let last = cameras[camera_id].generation;
            &&& is_stopped_only(cameras, after, camera_id)
            &&& supported ==> outcome is Start && outcome->config == config
            &&& supported && !cameras.contains_key(camera_id) ==> outcome->generation == 0
            &&& supported && cameras.contains_key(camera_id) && last < 0xffff_ffff_ffff_ffff
                ==> outcome->generation == last + 1
            &&& supported && cameras.contains_key(camera_id) && last == 0xffff_ffff_ffff_ffff
                ==> outcome->generation == 0
            &&& !supported ==> outcome == EnsureModel::Failed(
                ErrorModel::UnsupportedCaptureEncoding(config.capture_encoding),
            )
        }),
{
    crate::config::law_two_encodings_are_supported(config.capture_encoding);
    law_stopping_a_camera_leaves_the_rest(cameras, camera_id);
}

/// A request for a camera that there is, or that names a field, is judged by its
/// fields.
pub proof fn law_known_camera_is_asked_for(
    cameras: Map<Seq<char>, WorkerModel>,
    camera_id: Seq<char>,
    query: Map<Seq<char>, Seq<char>>,
    headers: Map<Seq<char>, Seq<u8>>,
    reading: Option<u32>,
)
    requires
        cameras.contains_key(camera_id) || crate::request::names_bootstrap(query, headers),
    ensures
        ensured_or_existing(cameras, camera_id, query, headers, reading) == ensured(
            cameras,
            camera_id,
            crate::config::requested_fields(query, headers),
            reading,
        ),
{
}

/// A result that tells what came of asking tells just that: a worker that runs, a
/// new worker that has yet to capture, with the configuration and the generation that
/// are wanted, or the error.
pub proof fn law_outcome_is_told(r: Result<Ensured, CameraManagerError>, outcome: EnsureModel)
    requires
        tells(r, outcome),
    ensures
        match outcome {
            EnsureModel::Running => r is Ok && r->Ok_0 is Running,
            EnsureModel::Start { config, generation } => r is Ok && (r->Ok_0 matches Ensured::Start(
                worker,
            ) && {
                &&& worker@.config == config
                &&& worker@.generation == generation
                &&& worker@.frame.len() == 0
                &&& worker@.frames_captured == 0
                &&& worker@.capturing
                &&& !worker@.stopped
            }),
            EnsureModel::Failed(error) => r is Err && r->Err_0@ == error,
        },
{
}

/// Putting a worker in place changes that place only. The worker that was there is
/// kept with the replaced ones where it captures, as it is; and no other replaced
/// worker is touched.
pub proof fn law_place_is_taken(
    manager: ManagerModel,
    worker: WorkerModel,
    other: Seq<char>,
    key: (Seq<char>, u64),
)
    ensures
        ({
            let camera_id = worker.config.camera_id;
            let after = manager.with_worker(worker);
            let former = manager.cameras[camera_id];
            let kept = manager.cameras.contains_key(camera_id) && former.capturing;
            &&& after.cameras.contains_key(camera_id)
            &&& after.cameras[camera_id] == worker
            &&& other != camera_id ==> after.cameras.contains_key(other)
                == manager.cameras.contains_key(other)
            &&& other != camera_id && manager.cameras.contains_key(other) ==> after.cameras[other]
                == manager.cameras[other]
            &&& kept && key == (camera_id, former.generation) ==> after.replaced.contains_key(key)
                && after.replaced[key] == former
            &&& !(kept && key == (camera_id, former.generation)) ==> after.replaced.contains_key(
                key,
            ) == manager.replaced.contains_key(key)
            &&& !(kept && key == (camera_id, former.generation)) && manager.replaced.contains_key(
                key,
            ) ==> after.replaced[key] == manager.replaced[key]
        }),
{
}

/// A step of the worker in the place of a camera is the step that the worker takes,
/// and the worker that came of it is in its place; a step of a replaced worker is its
/// step too, and leaves the places alone, until it finishes and is let go; a step of
/// a worker that there is not finishes and changes nothing.
pub proof fn law_managed_step_is_that_of_the_worker(
    manager: ManagerModel,
    camera_id: Seq<char>,
    generation: u64,
    event: EventModel,
    now_ms: u128,
)
    ensures
        ({
            let key = (camera_id, generation);
            let in_place = manager.cameras.contains_key(camera_id)
                && manager.cameras[camera_id].generation == generation;
            let (after, step) = managed_transition(manager, camera_id, generation, event, now_ms);
            let own = crate::capture::capture_transition(
                if in_place {
                    manager.cameras[camera_id]
                } else {
                    manager.replaced[key]
                },
                event,
                now_ms,
            );
            &&& in_place ==> {
                &&& step == own.1
                &&& after.cameras.contains_key(camera_id)
                &&& after.cameras[camera_id] == own.0
                &&& after.replaced == manager.replaced
            }
            &&& !in_place && manager.replaced.contains_key(key) ==> {
                &&& step == own.1
                &&& after.cameras == manager.cameras
                &&& after.replaced.contains_key(key) == !(own.1.action is Finish)
                &&& !(own.1.action is Finish) ==> after.replaced[key] == own.0
            }
            &&& !in_place && !manager.replaced.contains_key(key) ==> {
                &&& step.action is Finish
                &&& step.note == FrameNote::Quiet
                &&& after == manager
            }
        }),
{
}

/// A step of one worker of a camera leaves every other worker of it alone.
pub proof fn law_step_leaves_other_workers(
    manager: ManagerModel,
    camera_id: Seq<char>,
    generation: u64,
    key: (Seq<char>, u64),
    event: EventModel,
    now_ms: u128,
)
    requires
        key != (camera_id, generation),
    ensures
        ({
            let after = managed_transition(manager, camera_id, generation, event, now_ms).0;
            &&& after.replaced.contains_key(key) == manager.replaced.contains_key(key)
            &&& manager.replaced.contains_key(key) ==> after.replaced[key] == manager.replaced[key]
            &&& manager.cameras.contains_key(camera_id) && manager.cameras[camera_id].generation
                != generation ==> after.cameras == manager.cameras
        }),
{
}

/// The ids of a row of states are those of its states, in their places.
pub proof fn law_ids_of_states(list: Seq<CameraStateSnapshot>, i: int)
    requires
        0 <= i < list.len(),
    ensures
        snapshot_ids(list).len() == list.len(),
        snapshot_ids(list)[i] == list[i].camera_id@,
{
}

/// A manager without cameras has none, in place or replaced.
pub proof fn law_empty_manager_has_no_worker(camera_id: Seq<char>, generation: u64)
    ensures
        !ManagerModel::empty().cameras.contains_key(camera_id),
        !ManagerModel::empty().replaced.contains_key((camera_id, generation)),
{
}

/// A request that is made again finds the worker that was started for it, at any
/// later time: whatever the worker has captured since, and whatever it is at, it is
/// used again and nothing changes.
pub proof fn law_request_made_again_later(
    cameras: Map<Seq<char>, WorkerModel>,
    camera_id: Seq<char>,
    fields: crate::config::FieldsModel,
    existing: Option<ConfigModel>,
    reading: Option<u32>,
    config: ConfigModel,
)
    requires
        crate::config::requested_config(camera_id, fields, existing, reading) == Ok::<
            ConfigModel,
            ErrorModel,
        >(config),
        config.capture_encoding == seq!['Y', 'U', 'Y', 'V'] || config.capture_encoding
            == seq!['M', 'J', 'P', 'G'],
        cameras.contains_key(camera_id),
        cameras[camera_id].config == config,
    ensures
        ensured(cameras, camera_id, fields, reading) == (cameras, EnsureModel::Running),
{
    crate::config::law_two_encodings_are_supported(config.capture_encoding);
    crate::config::lemma_supported_upper(config.capture_encoding);
    crate::config::law_repeated_request_keeps_config(
        camera_id,
        fields,
        existing,
        reading,
        config,
    );
    law_same_configuration_is_used_again(cameras, camera_id, fields, reading, config);
}

} // verus!
