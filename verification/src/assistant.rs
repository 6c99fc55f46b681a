//! The assistant: handle lifecycle, task registry, connection target.
//!
//! The native engine owns the actual instance handle and performs every
//! call; this type holds everything the wrapper itself decides and tracks —
//! the lifecycle state, the last connection target, the registry of
//! submitted tasks — and takes each engine outcome as a plain value, so
//! that the bookkeeping around the calls is verified for every outcome the
//! engine can produce.

use vstd::prelude::*;

use crate::connection::Connection;
use crate::task;
use crate::json::doc_text;
use crate::json::JsonV;
use crate::types::Error;

verus! {

/// One submitted task of any kind: the closed union of the task kinds.
#[derive(Clone, Debug, PartialEq)]
pub enum TaskItem {
    /// A StartUp task.
    StartUp(task::StartUpTask),
    /// A CloseDown task.
    CloseDown(task::CloseDownTask),
    /// A Fight task.
    Fight(task::FightTask),
    /// A Recruit task.
    Recruit(task::RecruitTask),
    /// A Infrast task.
    Infrast(task::InfrastTask),
    /// A Mall task.
    Mall(task::MallTask),
    /// A Award task.
    Award(task::AwardTask),
    /// A Roguelike task.
    Roguelike(task::RoguelikeTask),
    /// A Copilot task.
    Copilot(task::CopilotTask),
    /// A SSSCopilot task.
    SSSCopilot(task::SSSCopilotTask),
    /// A Depot task.
    Depot(task::DepotTask),
    /// A OperBox task.
    OperBox(task::OperBoxTask),
    /// A Reclamation task.
    Reclamation(task::ReclamationTask),
    /// A Custom task.
    Custom(task::CustomTask),
    /// A SingleStep task.
    SingleStep(task::SingleStepTask),
    /// A VideoRecognition task.
    VideoRecognition(task::VideoRecognitionTask),
}

/// The stable type tag of a task of any kind.
pub open spec fn task_item_type(t: TaskItem) -> Seq<char> {
    match t {
        TaskItem::StartUp(_) => "StartUp"@,
        TaskItem::CloseDown(_) => "CloseDown"@,
        TaskItem::Fight(_) => "Fight"@,
        TaskItem::Recruit(_) => "Recruit"@,
        TaskItem::Infrast(_) => "Infrast"@,
        TaskItem::Mall(_) => "Mall"@,
        TaskItem::Award(_) => "Award"@,
        TaskItem::Roguelike(_) => "Roguelike"@,
        TaskItem::Copilot(_) => "Copilot"@,
        TaskItem::SSSCopilot(_) => "SSSCopilot"@,
        TaskItem::Depot(_) => "Depot"@,
        TaskItem::OperBox(_) => "OperBox"@,
        TaskItem::Reclamation(_) => "Reclamation"@,
        TaskItem::Custom(_) => "Custom"@,
        TaskItem::SingleStep(_) => "SingleStep"@,
        TaskItem::VideoRecognition(_) => "VideoRecognition"@,
    }
}

/// The document members of a task of any kind.
pub open spec fn task_item_pairs(t: TaskItem) -> Seq<(Seq<char>, JsonV)> {
    match t {
        TaskItem::StartUp(t) => task::start_up_pairs(t),
        TaskItem::CloseDown(t) => task::close_down_pairs(t),
        TaskItem::Fight(t) => task::fight_pairs(t),
        TaskItem::Recruit(t) => task::recruit_pairs(t),
        TaskItem::Infrast(t) => task::infrast_pairs(t),
        TaskItem::Mall(t) => task::mall_pairs(t),
        TaskItem::Award(t) => task::award_pairs(t),
        TaskItem::Roguelike(t) => task::roguelike_pairs(t),
        TaskItem::Copilot(t) => task::copilot_pairs(t),
        TaskItem::SSSCopilot(t) => task::ssscopilot_pairs(t),
        TaskItem::Depot(t) => task::depot_pairs(t),
        TaskItem::OperBox(t) => task::oper_box_pairs(t),
        TaskItem::Reclamation(t) => task::reclamation_pairs(t),
        TaskItem::Custom(t) => task::custom_pairs(t),
        TaskItem::SingleStep(t) => task::single_step_pairs(t),
        TaskItem::VideoRecognition(t) => task::video_recognition_pairs(t),
    }
}

/// The stable human-readable name of a task of any kind.
pub open spec fn task_item_name(t: TaskItem) -> Seq<char> {
    match t {
        TaskItem::StartUp(_) => "开始唤醒"@,
        TaskItem::CloseDown(_) => "关闭游戏"@,
        TaskItem::Fight(_) => "刷理智"@,
        TaskItem::Recruit(_) => "公开招募"@,
        TaskItem::Infrast(_) => "基建换班"@,
        TaskItem::Mall(_) => "商店"@,
        TaskItem::Award(_) => "奖励领取"@,
        TaskItem::Roguelike(_) => "肉鸽"@,
        TaskItem::Copilot(_) => "自动抄作业"@,
        TaskItem::SSSCopilot(_) => "自动抄保全作业"@,
        TaskItem::Depot(_) => "仓库识别"@,
        TaskItem::OperBox(_) => "干员 box 识别"@,
        TaskItem::Reclamation(_) => "生息演算"@,
        TaskItem::Custom(_) => "自定义"@,
        TaskItem::SingleStep(_) => "单步"@,
        TaskItem::VideoRecognition(_) => "视频识别"@,
    }
}

impl TaskItem {
    /// The stable type tag the engine knows the task by.
    pub fn task_type(&self) -> (r: &'static str)
        ensures
            r@ == task_item_type(*self),
    {
        match self {
            TaskItem::StartUp(t) => t.task_type(),
            TaskItem::CloseDown(t) => t.task_type(),
            TaskItem::Fight(t) => t.task_type(),
            TaskItem::Recruit(t) => t.task_type(),
            TaskItem::Infrast(t) => t.task_type(),
            TaskItem::Mall(t) => t.task_type(),
            TaskItem::Award(t) => t.task_type(),
            TaskItem::Roguelike(t) => t.task_type(),
            TaskItem::Copilot(t) => t.task_type(),
            TaskItem::SSSCopilot(t) => t.task_type(),
            TaskItem::Depot(t) => t.task_type(),
            TaskItem::OperBox(t) => t.task_type(),
            TaskItem::Reclamation(t) => t.task_type(),
            TaskItem::Custom(t) => t.task_type(),
            TaskItem::SingleStep(t) => t.task_type(),
            TaskItem::VideoRecognition(t) => t.task_type(),
        }
    }

    /// The stable human-readable name of the task kind.
    pub fn task_name(&self) -> (r: &'static str)
        ensures
            r@ == task_item_name(*self),
    {
        match self {
            TaskItem::StartUp(t) => t.task_name(),
            TaskItem::CloseDown(t) => t.task_name(),
            TaskItem::Fight(t) => t.task_name(),
            TaskItem::Recruit(t) => t.task_name(),
            TaskItem::Infrast(t) => t.task_name(),
            TaskItem::Mall(t) => t.task_name(),
            TaskItem::Award(t) => t.task_name(),
            TaskItem::Roguelike(t) => t.task_name(),
            TaskItem::Copilot(t) => t.task_name(),
            TaskItem::SSSCopilot(t) => t.task_name(),
            TaskItem::Depot(t) => t.task_name(),
            TaskItem::OperBox(t) => t.task_name(),
            TaskItem::Reclamation(t) => t.task_name(),
            TaskItem::Custom(t) => t.task_name(),
            TaskItem::SingleStep(t) => t.task_name(),
            TaskItem::VideoRecognition(t) => t.task_name(),
        }
    }

    /// The canonical JSON parameter string of the task.
    pub fn to_json(&self) -> (r: String)
        ensures
            r@ == doc_text(task_item_pairs(*self)),
    {
        match self {
            TaskItem::StartUp(t) => t.to_json(),
            TaskItem::CloseDown(t) => t.to_json(),
            TaskItem::Fight(t) => t.to_json(),
            TaskItem::Recruit(t) => t.to_json(),
            TaskItem::Infrast(t) => t.to_json(),
            TaskItem::Mall(t) => t.to_json(),
            TaskItem::Award(t) => t.to_json(),
            TaskItem::Roguelike(t) => t.to_json(),
            TaskItem::Copilot(t) => t.to_json(),
            TaskItem::SSSCopilot(t) => t.to_json(),
            TaskItem::Depot(t) => t.to_json(),
            TaskItem::OperBox(t) => t.to_json(),
            TaskItem::Reclamation(t) => t.to_json(),
            TaskItem::Custom(t) => t.to_json(),
            TaskItem::SingleStep(t) => t.to_json(),
            TaskItem::VideoRecognition(t) => t.to_json(),
        }
    }
}


// ---------------------------------------------------------------------------
// The task registry.
// ---------------------------------------------------------------------------

/// The identifiers a registry holds, in insertion order.
pub open spec fn reg_ids(ts: Seq<(i32, TaskItem)>) -> Seq<i32> {
    Seq::new(ts.len(), |i: int| ts[i].0)
}

/// Whether a registry holds the given identifier.
pub open spec fn reg_contains(ts: Seq<(i32, TaskItem)>, id: i32) -> bool {
    exists|i: int| 0 <= i < ts.len() && ts[i].0 == id
}

/// The task a registry holds under the given identifier, if any.
pub open spec fn reg_get(ts: Seq<(i32, TaskItem)>, id: i32) -> Option<TaskItem>
    decreases ts.len(),
{
    if ts.len() == 0 {
        Option::None
    } else if ts[0].0 == id {
        Option::Some(ts[0].1)
    } else {
        reg_get(ts.skip(1), id)
    }
}

/// The registry after registering a task under an identifier: the existing
/// entry is replaced, or a new one appended.
pub open spec fn reg_insert(ts: Seq<(i32, TaskItem)>, id: i32, t: TaskItem) -> Seq<(i32, TaskItem)> {
    if reg_contains(ts, id) {
        Seq::new(ts.len(), |i: int| if ts[i].0 == id {
            (id, t)
        } else {
            ts[i]
        })
    } else {
        ts.push((id, t))
    }
}

/// The registry after updating a task under an identifier: the existing
/// entry is replaced; an absent identifier changes nothing.
pub open spec fn reg_update(ts: Seq<(i32, TaskItem)>, id: i32, t: TaskItem) -> Seq<(i32, TaskItem)> {
    if reg_contains(ts, id) {
        reg_insert(ts, id, t)
    } else {
        ts
    }
}

/// Whether no identifier repeats in a registry.
pub open spec fn reg_unique(ts: Seq<(i32, TaskItem)>) -> bool {
    forall|i: int, j: int| 0 <= i < j < ts.len() ==> ts[i].0 != ts[j].0
}

/// After registering, the identifier maps to the registered task, whose
/// type tag is the submitted one.
pub proof fn lemma_register_holds_task(ts: Seq<(i32, TaskItem)>, id: i32, t: TaskItem)
    ensures
        reg_get(reg_insert(ts, id, t), id) == Option::Some(t),
        reg_contains(reg_insert(ts, id, t), id),
        (match reg_get(reg_insert(ts, id, t), id) {
            Option::Some(held) => task_item_type(held) == task_item_type(t),
            Option::None => false,
        }),
    decreases ts.len(),
{
    let post = reg_insert(ts, id, t);
    if reg_contains(ts, id) {
        lemma_get_mapped(ts, id, t);
        assert(post =~= Seq::new(ts.len(), |i: int| if ts[i].0 == id {
            (id, t)
        } else {
            ts[i]
        }));
    } else {
        lemma_get_pushed(ts, id, t);
    }
    assert(reg_contains(post, id)) by {
        if reg_contains(ts, id) {
            let i = choose|i: int| 0 <= i < ts.len() && ts[i].0 == id;
            assert(post[i].0 == id);
        } else {
            assert(post[ts.len() as int].0 == id);
        }
    }
}

/// Lookup after a replacing insert finds the new task.
proof fn lemma_get_mapped(ts: Seq<(i32, TaskItem)>, id: i32, t: TaskItem)
    requires
        reg_contains(ts, id),
    ensures
        reg_get(
            Seq::new(ts.len(), |i: int| if ts[i].0 == id {
                (id, t)
            } else {
                ts[i]
            }),
            id,
        ) == Option::Some(t),
    decreases ts.len(),
{
    let post = Seq::new(ts.len(), |i: int| if ts[i].0 == id {
        (id, t)
    } else {
        ts[i]
    });
    if ts[0].0 == id {
        assert(post[0] == (id, t));
    } else {
        assert(reg_contains(ts.skip(1), id)) by {
            let i = choose|i: int| 0 <= i < ts.len() && ts[i].0 == id;
            assert(ts.skip(1)[i - 1].0 == id);
        }
        lemma_get_mapped(ts.skip(1), id, t);
        assert(post.skip(1) =~= Seq::new(ts.skip(1).len(), |i: int| if ts.skip(1)[i].0 == id {
            (id, t)
        } else {
            ts.skip(1)[i]
        }));
        assert(post[0] == ts[0]);
    }
}

/// Lookup after an appending insert finds the new task.
proof fn lemma_get_pushed(ts: Seq<(i32, TaskItem)>, id: i32, t: TaskItem)
    requires
        !reg_contains(ts, id),
    ensures
        reg_get(ts.push((id, t)), id) == Option::Some(t),
    decreases ts.len(),
{
    let post = ts.push((id, t));
    if ts.len() == 0 {
        assert(post[0] == (id, t));
    } else {
        assert(ts[0].0 != id);
        assert(post[0] == ts[0]);
        assert(!reg_contains(ts.skip(1), id)) by {
            if reg_contains(ts.skip(1), id) {
                let i = choose|i: int| 0 <= i < ts.skip(1).len() && ts.skip(1)[i].0 == id;
                assert(ts[i + 1].0 == id);
            }
        }
        lemma_get_pushed(ts.skip(1), id, t);
        assert(post.skip(1) =~= ts.skip(1).push((id, t)));
    }
}

/// Updating an absent identifier changes nothing and inserts nothing.
pub proof fn lemma_update_absent_is_noop(ts: Seq<(i32, TaskItem)>, id: i32, t: TaskItem)
    requires
        !reg_contains(ts, id),
    ensures
        reg_update(ts, id, t) == ts,
        !reg_contains(reg_update(ts, id, t), id),
{
}

// ---------------------------------------------------------------------------
// The assistant.
// ---------------------------------------------------------------------------

/// Where one engine instance stands in its life: created, connected to a
/// device, running its queue, stopped, or destroyed — the one terminal
/// state, never left again.
#[derive(Clone, Copy, Debug, PartialEq, Eq, Structural)]
pub enum Lifecycle {
    /// The handle exists; no device is connected yet.
    Created,
    /// A device connection was accepted.
    Connected,
    /// The engine is running the task queue.
    Running,
    /// The engine was told to stop.
    Stopped,
    /// The handle was released; terminal.
    Destroyed,
}

/// The wrapper-side state of one engine instance: its lifecycle, the last
/// connection target, and the registry of submitted tasks.  Every engine
/// outcome reaches it as a plain value; the methods say exactly how each
/// outcome changes the state and which error a refusal maps to.
pub struct Assistant {
    /// Where the instance stands in its life.
    pub state: Lifecycle,
    /// The device address recorded by the last accepted connect.
    pub target: Option<String>,
    /// The submitted tasks, keyed by the engine-assigned identifier.
    pub tasks: Vec<(i32, TaskItem)>,
}

impl Assistant {
    /// Whether the registry holds no identifier twice.
    pub open spec fn well_formed(&self) -> bool {
        reg_unique(self.tasks@)
    }

    /// A fresh assistant state for a newly created handle.
    pub fn new() -> (r: Assistant)
        ensures
            r.state == Lifecycle::Created,
            r.target is None,
            r.tasks@ == Seq::<(i32, TaskItem)>::empty(),
            r.well_formed(),
    {
        let a = Assistant { state: Lifecycle::Created, target: Option::None, tasks: Vec::new() };
        proof {
            assert(a.tasks@ =~= Seq::<(i32, TaskItem)>::empty());
        }
        a
    }

    /// Record the outcome of the engine's connect call: an accepted request
    /// records the target address and moves to `Connected`; a refusal is
    /// `ConnectFailed` and changes nothing.
    pub fn connect(&mut self, connection: &Connection, accepted: bool) -> (r: Result<(), Error>)
        requires
            old(self).state != Lifecycle::Destroyed,
        ensures
            final(self).tasks@ == old(self).tasks@,
            if accepted {
                &&& r is Ok
                &&& final(self).state == Lifecycle::Connected
                &&& (match connection {
                    Connection::Adb(_, a) => final(self).target matches Option::Some(s) && s@
                        == a@,
                    Connection::PlayCover(a) => final(self).target matches Option::Some(s) && s@
                        == a@,
                })
            } else {
                r == Result::<(), Error>::Err(Error::ConnectFailed) && *final(self) == *old(self)
            },
    {
        if accepted {
            self.target = connection.address();
            self.state = Lifecycle::Connected;
            Result::Ok(())
        } else {
            Result::Err(Error::ConnectFailed)
        }
    }

    /// Record the identifier the engine assigned to an appended task: a
    /// strictly positive identifier registers the task under it and is
    /// returned; zero or less signals refusal, registers nothing, and is
    /// `TaskAppendFailed`.
    #[verifier::loop_isolation(false)]
    pub fn append_task(&mut self, task: TaskItem, id: i32) -> (r: Result<i32, Error>)
        requires
            old(self).well_formed(),
        ensures
            final(self).state == old(self).state,
            final(self).target == old(self).target,
            final(self).well_formed(),
            if id > 0 {
                r == Result::<i32, Error>::Ok(id) && final(self).tasks@ == reg_insert(
                    old(self).tasks@,
                    id,
                    task,
                )
            } else {
                r == Result::<i32, Error>::Err(Error::TaskAppendFailed) && final(self).tasks@
                    == old(self).tasks@
            },
    {
        if id <= 0 {
            return Result::Err(Error::TaskAppendFailed);
        }
        let ghost pre = self.tasks@;
        let mut i: usize = 0;
        let n = self.tasks.len();
        while i < n
            invariant
                n == self.tasks@.len(),
                i <= n,
                self.tasks@ == pre,
                self.state == old(self).state,
                self.target == old(self).target,
                forall|j: int| 0 <= j < i ==> self.tasks@[j].0 != id,
            decreases n - i,
        {
            if self.tasks[i].0 == id {
                proof {
                    assert(pre[i as int].0 == id);
                }
                self.tasks.set(i, (id, task));
                proof {
                    assert(reg_contains(pre, id));
                    assert forall|j: int| 0 <= j < pre.len() && j != i implies pre[j].0 != id by {
                        if j < i {
                            assert(pre[j].0 != pre[i as int].0);
                        } else {
                            assert(pre[i as int].0 != pre[j].0);
                        }
                    }
                    assert(self.tasks@ =~= reg_insert(pre, id, task));
                    assert(forall|j: int| 0 <= j < self.tasks@.len() ==> #[trigger] self.tasks@[j].0
                        == pre[j].0);
                    assert(reg_unique(self.tasks@));
                }
                return Result::Ok(id);
            }
            i = i + 1;
        }
        self.tasks.push((id, task));
        proof {
            assert(!reg_contains(pre, id));
            assert(self.tasks@ =~= reg_insert(pre, id, task));
            assert(reg_unique(self.tasks@)) by {
                assert(forall|j: int| 0 <= j < pre.len() ==> pre[j] == #[trigger] self.tasks@[j]);
            }
        }
        Result::Ok(id)
    }

    /// Record the outcome of updating a task's parameters: on acceptance
    /// the registry entry is replaced where the identifier is known — an
    /// unknown identifier is legal and inserts nothing — and a refusal is
    /// `TaskParamsSetFailed` and changes nothing.
    #[verifier::loop_isolation(false)]
    pub fn set_task_params(&mut self, task_id: i32, task: TaskItem, accepted: bool) -> (r: Result<
        (),
        Error,
    >)
        requires
            old(self).well_formed(),
        ensures
            final(self).state == old(self).state,
            final(self).target == old(self).target,
            final(self).well_formed(),
            if accepted {
                r is Ok && final(self).tasks@ == reg_update(old(self).tasks@, task_id, task)
            } else {
                r == Result::<(), Error>::Err(Error::TaskParamsSetFailed) && final(self).tasks@
                    == old(self).tasks@
            },
    {
        if !accepted {
            return Result::Err(Error::TaskParamsSetFailed);
        }
        let ghost pre = self.tasks@;
        let mut i: usize = 0;
        let n = self.tasks.len();
        while i < n
            invariant
                n == self.tasks@.len(),
                i <= n,
                self.tasks@ == pre,
                self.state == old(self).state,
                self.target == old(self).target,
                forall|j: int| 0 <= j < i ==> self.tasks@[j].0 != task_id,
            decreases n - i,
        {
            if self.tasks[i].0 == task_id {
                proof {
                    assert(pre[i as int].0 == task_id);
                }
                self.tasks.set(i, (task_id, task));
                proof {
                    assert(reg_contains(pre, task_id));
                    assert forall|j: int| 0 <= j < pre.len() && j != i implies pre[j].0 != task_id
                        by {
                        if j < i {
                            assert(pre[j].0 != pre[i as int].0);
                        } else {
                            assert(pre[i as int].0 != pre[j].0);
                        }
                    }
                    assert(self.tasks@ =~= reg_insert(pre, task_id, task));
                    assert(forall|j: int| 0 <= j < self.tasks@.len() ==> #[trigger] self.tasks@[j].0
                        == pre[j].0);
                    assert(reg_unique(self.tasks@));
                }
                return Result::Ok(());
            }
            i = i + 1;
        }
        proof {
            assert(!reg_contains(self.tasks@, task_id));
        }
        Result::Ok(())
    }

    /// Record the outcome of the engine's start call.
    pub fn start(&mut self, accepted: bool) -> (r: Result<(), Error>)
        requires
            old(self).state != Lifecycle::Destroyed,
        ensures
            final(self).tasks@ == old(self).tasks@,
            final(self).target == old(self).target,
            if accepted {
                r is Ok && final(self).state == Lifecycle::Running
            } else {
                r == Result::<(), Error>::Err(Error::StartFailed) && *final(self) == *old(self)
            },
    {
        if accepted {
            self.state = Lifecycle::Running;
            Result::Ok(())
        } else {
            Result::Err(Error::StartFailed)
        }
    }

    /// Record the outcome of the engine's stop call.
    pub fn stop(&mut self, accepted: bool) -> (r: Result<(), Error>)
        requires
            old(self).state != Lifecycle::Destroyed,
        ensures
            final(self).tasks@ == old(self).tasks@,
            final(self).target == old(self).target,
            if accepted {
                r is Ok && final(self).state == Lifecycle::Stopped
            } else {
                r == Result::<(), Error>::Err(Error::StopFailed) && *final(self) == *old(self)
            },
    {
        if accepted {
            self.state = Lifecycle::Stopped;
            Result::Ok(())
        } else {
            Result::Err(Error::StopFailed)
        }
    }

    /// Record an engine message that moves the lifecycle: completion of the
    /// whole queue returns a running instance to `Connected`; every other
    /// message leaves the state alone.
    pub fn on_message(&mut self, m: crate::message::Message)
        ensures
            final(self).tasks@ == old(self).tasks@,
            final(self).target == old(self).target,
            if m == crate::message::Message::AllTasksCompleted && old(self).state
                == Lifecycle::Running {
                final(self).state == Lifecycle::Connected
            } else {
                *final(self) == *old(self)
            },
    {
        if matches!(m, crate::message::Message::AllTasksCompleted) && matches!(
            self.state,
            Lifecycle::Running,
        ) {
            self.state = Lifecycle::Connected;
        }
    }

    /// Record the outcome of the engine's click call.
    pub fn click(&mut self, x: i32, y: i32, accepted: bool) -> (r: Result<(), Error>)
        requires
            old(self).state != Lifecycle::Destroyed,
        ensures
            *final(self) == *old(self),
            if accepted {
                r is Ok
            } else {
                r == Result::<(), Error>::Err(Error::ClickFailed)
            },
    {
        let _ = x;
        let _ = y;
        if accepted {
            Result::Ok(())
        } else {
            Result::Err(Error::ClickFailed)
        }
    }

    /// Record the outcome of the engine's screenshot trigger.
    pub fn capture_screenshot(&self, accepted: bool) -> (r: Result<(), Error>)
        ensures
            if accepted {
                r is Ok
            } else {
                r == Result::<(), Error>::Err(Error::CaptureFailed)
            },
    {
        if accepted {
            Result::Ok(())
        } else {
            Result::Err(Error::CaptureFailed)
        }
    }

    /// Record the outcome of the engine's back-to-home trigger.
    pub fn back_to_home(&mut self, accepted: bool) -> (r: Result<(), Error>)
        requires
            old(self).state != Lifecycle::Destroyed,
        ensures
            *final(self) == *old(self),
            if accepted {
                r is Ok
            } else {
                r == Result::<(), Error>::Err(Error::BackToHomeFailed)
            },
    {
        if accepted {
            Result::Ok(())
        } else {
            Result::Err(Error::BackToHomeFailed)
        }
    }

    /// Record the outcome of setting a per-instance option.
    pub fn set_instance_option(
        &mut self,
        key: crate::types::InstanceOptionKey,
        value: &str,
        accepted: bool,
    ) -> (r: Result<(), Error>)
        requires
            old(self).state != Lifecycle::Destroyed,
        ensures
            *final(self) == *old(self),
            if accepted {
                r is Ok
            } else {
                r == Result::<(), Error>::Err(Error::SetInstanceOptionFailed)
            },
    {
        let _ = key;
        let _ = value;
        if accepted {
            Result::Ok(())
        } else {
            Result::Err(Error::SetInstanceOptionFailed)
        }
    }

    /// Record the outcome of setting a process-wide option.
    pub fn set_static_option(
        &self,
        key: crate::types::StaticOptionKey,
        value: &str,
        accepted: bool,
    ) -> (r: Result<(), Error>)
        ensures
            if accepted {
                r is Ok
            } else {
                r == Result::<(), Error>::Err(Error::SetStaticOptionFailed)
            },
    {
        let _ = key;
        let _ = value;
        if accepted {
            Result::Ok(())
        } else {
            Result::Err(Error::SetStaticOptionFailed)
        }
    }

    /// Normalise a query of the running state: any failure to ask counts
    /// as not running.
    pub fn is_running(&self, raw: Option<i32>) -> (r: bool)
        ensures
            r == (match raw {
                Option::Some(v) => v != 0,
                Option::None => false,
            }),
    {
        match raw {
            Option::Some(v) => v != 0,
            Option::None => false,
        }
    }

    /// Normalise a query of the connected state: any failure to ask counts
    /// as not connected.
    pub fn is_connected(&self, raw: Option<i32>) -> (r: bool)
        ensures
            r == (match raw {
                Option::Some(v) => v != 0,
                Option::None => false,
            }),
    {
        match raw {
            Option::Some(v) => v != 0,
            Option::None => false,
        }
    }

    /// The task registered under an identifier, if any.
    #[verifier::loop_isolation(false)]
    pub fn get_task(&self, id: i32) -> (r: Option<&TaskItem>)
        ensures
            match reg_get(self.tasks@, id) {
                Option::None => r is None,
                Option::Some(t) => r matches Option::Some(held) && *held == t,
            },
    {
        proof {
            assert(self.tasks@.skip(0) =~= self.tasks@);
        }
        let mut i: usize = 0;
        let n = self.tasks.len();
        while i < n
            invariant
                n == self.tasks@.len(),
                i <= n,
                forall|j: int| 0 <= j < i ==> self.tasks@[j].0 != id,
                reg_get(self.tasks@, id) == reg_get(self.tasks@.skip(i as int), id),
            decreases n - i,
        {
            proof {
                assert(self.tasks@.skip(i as int)[0] == self.tasks@[i as int]);
            }
            if self.tasks[i].0 == id {
                return Option::Some(&self.tasks[i].1);
            }
            proof {
                assert(self.tasks@.skip(i as int).skip(1) =~= self.tasks@.skip(i + 1));
            }
            i = i + 1;
        }
        proof {
            assert(self.tasks@.skip(n as int).len() == 0);
        }
        Option::None
    }

    /// The engine-reported identifiers that the registry knows, in the
    /// engine's order; identifiers never registered here are dropped.
    #[verifier::loop_isolation(false)]
    pub fn get_tasks_list(&self, engine_ids: &Vec<i32>) -> (r: Vec<i32>)
        ensures
            r@ == known_ids(self.tasks@, engine_ids@),
    {
        let mut out: Vec<i32> = Vec::new();
        let mut i: usize = 0;
        let n = engine_ids.len();
        while i < n
            invariant
                n == engine_ids@.len(),
                i <= n,
                out@ == known_ids(self.tasks@, engine_ids@.take(i as int)),
            decreases n - i,
        {
            let id = engine_ids[i];
            let known = match self.get_task(id) {
                Option::Some(_) => true,
                Option::None => false,
            };
            proof {
                lemma_reg_get_contains(self.tasks@, id);
            }
            if known {
                out.push(id);
            }
            proof {
                lemma_known_ids_snoc(self.tasks@, engine_ids@.take(i as int), id);
                assert(engine_ids@.take(i + 1) =~= engine_ids@.take(i as int).push(
                    engine_ids@[i as int],
                ));
            }
            i = i + 1;
        }
        proof {
            assert(engine_ids@.take(n as int) =~= engine_ids@);
        }
        out
    }

    /// Tell the driver to release the handle: answers whether the native
    /// destroy call is owed, which it is exactly once — afterwards the
    /// state is terminal and no further release is owed.
    pub fn destroy(&mut self) -> (issue: bool)
        ensures
            issue == destroy_owed(*old(self)),
            *final(self) == destroyed_state(*old(self)),
    {
        let issue = !matches!(self.state, Lifecycle::Destroyed);
        self.state = Lifecycle::Destroyed;
        issue
    }
}

/// Whether releasing this assistant still owes the native destroy call.
pub open spec fn destroy_owed(a: Assistant) -> bool {
    a.state != Lifecycle::Destroyed
}

/// The assistant after its destroy step.
pub open spec fn destroyed_state(a: Assistant) -> Assistant {
    Assistant { state: Lifecycle::Destroyed, ..a }
}

/// Destruction happens exactly once: a fresh assistant owes the native
/// destroy call, and after one destroy step nothing further is owed, in
/// whatever state the step found it.
pub proof fn lemma_destroy_exactly_once(a: Assistant)
    ensures
        a.state != Lifecycle::Destroyed ==> destroy_owed(a),
        !destroy_owed(destroyed_state(a)),
        destroyed_state(destroyed_state(a)) == destroyed_state(a),
{
}

/// The engine-reported identifiers that a registry knows, in order.
pub open spec fn known_ids(ts: Seq<(i32, TaskItem)>, ids: Seq<i32>) -> Seq<i32>
    decreases ids.len(),
{
    if ids.len() == 0 {
        Seq::empty()
    } else {
        known_ids(ts, ids.drop_last()) + (if reg_contains(ts, ids.last()) {
            seq![ids.last()]
        } else {
            Seq::empty()
        })
    }
}

/// Extending the engine list by one extends the known list accordingly.
proof fn lemma_known_ids_snoc(ts: Seq<(i32, TaskItem)>, ids: Seq<i32>, id: i32)
    ensures
        known_ids(ts, ids.push(id)) == known_ids(ts, ids) + (if reg_contains(ts, id) {
            seq![id]
        } else {
            Seq::<i32>::empty()
        }),
{
    assert(ids.push(id).drop_last() =~= ids);
    assert(ids.push(id).last() == id);
}

/// Lookup succeeds exactly on held identifiers.
proof fn lemma_reg_get_contains(ts: Seq<(i32, TaskItem)>, id: i32)
    ensures
        reg_get(ts, id) is Some <==> reg_contains(ts, id),
    decreases ts.len(),
{
    if ts.len() > 0 {
        lemma_reg_get_contains(ts.skip(1), id);
        if ts[0].0 != id {
            assert(reg_contains(ts, id) ==> reg_contains(ts.skip(1), id)) by {
                if reg_contains(ts, id) {
                    let i = choose|i: int| 0 <= i < ts.len() && ts[i].0 == id;
                    assert(ts.skip(1)[i - 1].0 == id);
                }
            }
            assert(reg_contains(ts.skip(1), id) ==> reg_contains(ts, id)) by {
                if reg_contains(ts.skip(1), id) {
                    let i = choose|i: int| 0 <= i < ts.skip(1).len() && ts.skip(1)[i].0 == id;
                    assert(ts[i + 1].0 == id);
                }
            }
        }
    }
}

// ---------------------------------------------------------------------------
// The builder: paths are gathered first, the handle is created last.
// ---------------------------------------------------------------------------

/// Gathers what an assistant needs before its handle is created: where the
/// engine's dynamic library lives and where its resource bundle lives.
pub struct AssistantBuilder {
    /// The directory holding the engine's dynamic library, once set.
    pub library_path: Option<String>,
    /// The directory holding the engine's resource bundle, once set.
    pub resource_path: Option<String>,
}

impl AssistantBuilder {
    /// A builder with no path set.
    pub fn new() -> (r: AssistantBuilder)
        ensures
            r.library_path is None,
            r.resource_path is None,
    {
        AssistantBuilder { library_path: Option::None, resource_path: Option::None }
    }

    /// Set the library directory.
    pub fn with_library(self, path: &str) -> (r: Self)
        ensures
            r.library_path matches Option::Some(p) && p@ == path@,
            r.resource_path == self.resource_path,
    {
        let mut this = self;
        this.library_path = Option::Some(path.to_owned());
        this
    }

    /// Set the resource directory.
    pub fn with_resource(self, path: &str) -> (r: Self)
        ensures
            r.resource_path matches Option::Some(p) && p@ == path@,
            r.library_path == self.library_path,
    {
        let mut this = self;
        this.resource_path = Option::Some(path.to_owned());
        this
    }

    /// The two gathered paths, library first: a missing library path is
    /// `LibraryLoadFailed`, then a missing resource path is
    /// `ResourceLoadFailed`.
    pub fn init_paths(self) -> (r: Result<(String, String), Error>)
        ensures
            match (self.library_path, self.resource_path) {
                (Option::Some(l), Option::Some(p)) => r matches Result::Ok((rl, rp)) && rl == l
                    && rp == p,
                (Option::None, _) => r == Result::<(String, String), Error>::Err(
                    Error::LibraryLoadFailed,
                ),
                (Option::Some(_), Option::None) => r == Result::<(String, String), Error>::Err(
                    Error::ResourceLoadFailed,
                ),
            },
    {
        let lib = match self.library_path {
            Option::Some(l) => l,
            Option::None => {
                return Result::Err(Error::LibraryLoadFailed);
            },
        };
        let res = match self.resource_path {
            Option::Some(p) => p,
            Option::None => {
                return Result::Err(Error::ResourceLoadFailed);
            },
        };
        Result::Ok((lib, res))
    }
}

impl Assistant {
    /// A builder for gathering the paths an assistant needs.
    pub fn registry() -> (r: AssistantBuilder)
        ensures
            r.library_path is None,
            r.resource_path is None,
    {
        AssistantBuilder::new()
    }
}

/// The engine library's file name under the given operating system: the
/// three supported conventions; any other system cannot load the library.
pub fn library_file_name(os: &str) -> (r: Result<&'static str, Error>)
    ensures
        if os@ == "macos"@ {
            r matches Result::Ok(n) && n@ == "libMaaCore.dylib"@
        } else if os@ == "windows"@ {
            r matches Result::Ok(n) && n@ == "MaaCore.dll"@
        } else if os@ == "linux"@ {
            r matches Result::Ok(n) && n@ == "libMaaCore.so"@
        } else {
            r == Result::<&'static str, Error>::Err(Error::LibraryLoadFailed)
        },
{
    if crate::task::str_eq(os, "macos") {
        Result::Ok("libMaaCore.dylib")
    } else if crate::task::str_eq(os, "windows") {
        Result::Ok("MaaCore.dll")
    } else if crate::task::str_eq(os, "linux") {
        Result::Ok("libMaaCore.so")
    } else {
        Result::Err(Error::LibraryLoadFailed)
    }
}

/// Interpret the engine's create call: a present handle is success, a null
/// handle is `CreateFailed`.
pub fn create_outcome(handle_present: bool) -> (r: Result<(), Error>)
    ensures
        if handle_present {
            r is Ok
        } else {
            r == Result::<(), Error>::Err(Error::CreateFailed)
        },
{
    if handle_present {
        Result::Ok(())
    } else {
        Result::Err(Error::CreateFailed)
    }
}

/// Interpret the engine's boolean-like return code for resource loading:
/// zero is refusal.
pub fn load_resource_outcome(ret: i32) -> (r: Result<(), Error>)
    ensures
        if ret != 0 {
            r is Ok
        } else {
            r == Result::<(), Error>::Err(Error::ResourceLoadFailed)
        },
{
    if ret != 0 {
        Result::Ok(())
    } else {
        Result::Err(Error::ResourceLoadFailed)
    }
}

/// Decode the engine's version bytes strictly: invalid text is `Unknown`.
pub fn version_from_bytes(bytes: &Vec<u8>) -> (r: Result<String, Error>)
    ensures
        match r {
            Result::Ok(s) => vstd::utf8::valid_utf8(bytes@) && s@ == vstd::utf8::decode_utf8(
                bytes@,
            ),
            Result::Err(e) => e == Error::Unknown && !vstd::utf8::valid_utf8(bytes@),
        },
{
    match utf8_to_text(bytes) {
        Option::Some(s) => Result::Ok(s),
        Option::None => Result::Err(Error::Unknown),
    }
}

/// Decode bytes as text strictly.
///
/// Relies on `str::from_utf8`: it accepts exactly valid UTF-8 and yields
/// the characters those bytes encode.
#[verifier::external_body]
fn utf8_to_text(bytes: &Vec<u8>) -> (r: Option<String>)
    ensures
        match r {
            Option::Some(s) => vstd::utf8::valid_utf8(bytes@) && s@ == vstd::utf8::decode_utf8(
                bytes@,
            ),
            Option::None => !vstd::utf8::valid_utf8(bytes@),
        },
{
    match core::str::from_utf8(bytes) {
        Ok(s) => Option::Some(s.to_owned()),
        Err(_) => Option::None,
    }
}

} // verus!
