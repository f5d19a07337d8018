//! Decoded APM action records, as delivered by the ingestion queue.

use vstd::prelude::*;
use crate::metrics::tag::{Tag, TagView};

verus! {

/// The mathematical value of a [`Measurement`].
pub ghost struct MeasurementView {
    pub name: Seq<char>,
    pub took_us: u64,
}

/// One sub-measurement of an action: a span name and its elapsed time in
/// microseconds.
pub struct Measurement {
    pub name: String,
    pub took_us: u64,
}

impl View for Measurement {
    type V = MeasurementView;

    open spec fn view(&self) -> MeasurementView {
        MeasurementView { name: self.name@, took_us: self.took_us }
    }
}

impl DeepView for Measurement {
    type V = MeasurementView;

    open spec fn deep_view(&self) -> MeasurementView {
        self.view()
    }
}

/// The mathematical value of an [`ApmV1Action`].
pub ghost struct ActionView {
    pub realm: Seq<char>,
    pub application: Seq<char>,
    pub application_hash: Seq<char>,
    pub action_kind: Seq<char>,
    pub action_name: Seq<char>,
    pub total_us: u64,
    pub measurements: Seq<MeasurementView>,
    pub additional_dimensions: Seq<TagView>,
}

/// One decoded APM action submission: identity fields, the total elapsed
/// duration in microseconds, free-form dimension tags and sub-measurements.
pub struct ApmV1Action {
    pub realm: String,
    pub application: String,
    pub application_hash: String,
    pub action_kind: String,
    pub action_name: String,
    pub total_us: u64,
    pub measurements: Vec<Measurement>,
    pub additional_dimensions: Vec<Tag>,
}

impl View for ApmV1Action {
    type V = ActionView;

    open spec fn view(&self) -> ActionView {
        ActionView {
            realm: self.realm@,
            application: self.application@,
            application_hash: self.application_hash@,
            action_kind: self.action_kind@,
            action_name: self.action_name@,
            total_us: self.total_us,
            measurements: self.measurements.deep_view(),
            additional_dimensions: self.additional_dimensions.deep_view(),
        }
    }
}

/// The mathematical value of a [`Message`].
pub ghost enum MessageView {
    ApmV1Action(ActionView),
}

/// A decoded inbound request, one variant per supported record kind.
pub enum Message {
    ApmV1Action(ApmV1Action),
}

impl View for Message {
    type V = MessageView;

    open spec fn view(&self) -> MessageView {
        match self {
            Message::ApmV1Action(a) => MessageView::ApmV1Action(a@),
        }
    }
}

} // verus!
