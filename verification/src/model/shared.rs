use vstd::prelude::*;

verus! {

#[derive(Clone, Copy, Debug, PartialEq, Eq, Structural)]
pub enum ManagedTaskClass {
    Complex,
    Huge,
    Max,
}

impl View for ManagedTaskClass {
    type V = ManagedTaskClass;

    open spec fn view(&self) -> ManagedTaskClass {
        *self
    }
}

impl DeepView for ManagedTaskClass {
    type V = ManagedTaskClass;

    open spec fn deep_view(&self) -> ManagedTaskClass {
        *self
    }
}

#[derive(Clone, Copy, Debug, PartialEq, Eq, Structural)]
pub enum WorkHorizonKind {
    Maintenance,
    Improvement,
    Extension,
    Disruption,
}

impl View for WorkHorizonKind {
    type V = WorkHorizonKind;

    open spec fn view(&self) -> WorkHorizonKind {
        *self
    }
}

impl DeepView for WorkHorizonKind {
    type V = WorkHorizonKind;

    open spec fn deep_view(&self) -> WorkHorizonKind {
        *self
    }
}

#[derive(Clone, Copy, Debug, PartialEq, Eq, Structural)]
pub enum TaskActivationReason {
    ExplicitStartTask,
    ExplicitTrackThis,
    DelegateHeavyWork,
    HeavyMultiStageGoal,
}

impl View for TaskActivationReason {
    type V = TaskActivationReason;

    open spec fn view(&self) -> TaskActivationReason {
        *self
    }
}

impl DeepView for TaskActivationReason {
    type V = TaskActivationReason;

    open spec fn deep_view(&self) -> TaskActivationReason {
        *self
    }
}

#[derive(Clone, Copy, Debug, PartialEq, Eq, Structural)]
pub enum WorkflowStage {
    Candidate,
    Execute,
    Review,
    Result,
    Closed,
}

impl View for WorkflowStage {
    type V = WorkflowStage;

    open spec fn view(&self) -> WorkflowStage {
        *self
    }
}

impl DeepView for WorkflowStage {
    type V = WorkflowStage;

    open spec fn deep_view(&self) -> WorkflowStage {
        *self
    }
}

#[derive(Clone, Copy, Debug, PartialEq, Eq, Structural)]
pub enum InteractionLane {
    Chat,
    ManagedTaskCandidate,
    ManagedTaskActive,
}

impl View for InteractionLane {
    type V = InteractionLane;

    open spec fn view(&self) -> InteractionLane {
        *self
    }
}

impl DeepView for InteractionLane {
    type V = InteractionLane;

    open spec fn deep_view(&self) -> InteractionLane {
        *self
    }
}

} // verus!
