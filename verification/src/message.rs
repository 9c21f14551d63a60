//! Protocol messages and the composer that builds one tick's batch.

use vstd::prelude::*;
use vstd::string::*;
use crate::binary32::Binary32;
use crate::pose::{Joint, Quat, UpperBody, JOINT_COUNT};
use crate::schema::Schema;

verus! {

/// One typed argument of a message.
#[derive(Clone, Debug, PartialEq, Eq)]
pub enum Arg {
    /// A single-precision number, by its bits.
    Float(Binary32),
    /// A string.
    Text(String),
}

/// What an [`Arg`] holds.
pub enum ArgView {
    Float(Binary32),
    Text(Seq<char>),
}

impl View for Arg {
    type V = ArgView;

    open spec fn view(&self) -> ArgView {
        match self {
            Arg::Float(x) => ArgView::Float(*x),
            Arg::Text(s) => ArgView::Text(s@),
        }
    }
}

/// An address with its arguments, in order.
#[derive(Clone, Debug, PartialEq, Eq)]
pub struct Message {
    pub addr: String,
    pub args: Vec<Arg>,
}

/// What a [`Message`] holds.
pub struct MessageView {
    pub addr: Seq<char>,
    pub args: Seq<ArgView>,
}

impl View for Message {
    type V = MessageView;

    open spec fn view(&self) -> MessageView {
        MessageView { addr: self.addr@, args: self.args@.map_values(|a: Arg| a@) }
    }
}

/// What a batch of messages holds, message by message.
pub open spec fn batch_view(batch: Seq<Message>) -> Seq<MessageView> {
    batch.map_values(|m: Message| m@)
}

/// The values that one tick puts on the wire: the smoothed ratios, and the
/// smoothed head angles already converted to degrees.
#[derive(Clone, Copy, Debug, PartialEq, Eq, Structural)]
pub struct Frame {
    pub blink: Binary32,
    pub mouth: Binary32,
    pub yaw_deg: Binary32,
    pub pitch_deg: Binary32,
    pub roll_deg: Binary32,
}

/// A message whose arguments are all numbers.
pub open spec fn float_message(addr: Seq<char>, values: Seq<Binary32>) -> MessageView {
    MessageView { addr, args: values.map_values(|x: Binary32| ArgView::Float(x)) }
}

/// The liveness ping.
pub open spec fn ping_message() -> MessageView {
    MessageView { addr: "/mc/ping"@, args: seq![ArgView::Text("ok"@)] }
}

/// The batch of the minimal schema: ping, blink, mouth, head.
pub open spec fn minimal_batch(f: Frame) -> Seq<MessageView> {
    seq![
        ping_message(),
        float_message("/mc/blink"@, seq![f.blink]),
        float_message("/mc/mouth"@, seq![f.mouth]),
        float_message("/mc/head"@, seq![f.yaw_deg, f.pitch_deg, f.roll_deg]),
    ]
}

/// The batch of the cluster schema: blink, jaw, head; no ping.
pub open spec fn cluster_batch(f: Frame) -> Seq<MessageView> {
    seq![
        float_message("/cluster/face/blink"@, seq![f.blink]),
        float_message("/cluster/face/jawOpen"@, seq![f.mouth]),
        float_message("/cluster/head/euler"@, seq![f.yaw_deg, f.pitch_deg, f.roll_deg]),
    ]
}

/// The address under which a joint is reported.
pub open spec fn joint_address(joint: Joint) -> Seq<char> {
    match joint {
        Joint::Chest => "/mc/ub/chest"@,
        Joint::LeftShoulder => "/mc/ub/l_shoulder"@,
        Joint::RightShoulder => "/mc/ub/r_shoulder"@,
        Joint::LeftUpperArm => "/mc/ub/l_upper_arm"@,
        Joint::RightUpperArm => "/mc/ub/r_upper_arm"@,
        Joint::LeftLowerArm => "/mc/ub/l_lower_arm"@,
        Joint::RightLowerArm => "/mc/ub/r_lower_arm"@,
        Joint::LeftWrist => "/mc/ub/l_wrist"@,
        Joint::RightWrist => "/mc/ub/r_wrist"@,
    }
}

/// The message that reports one joint rotation: x, y, z, w.
pub open spec fn joint_message(joint: Joint, q: Quat) -> MessageView {
    float_message(joint_address(joint), seq![q.x, q.y, q.z, q.w])
}

/// What one joint adds to a batch: its message if it is present, nothing if it
/// is absent.
pub open spec fn joint_part(upper: UpperBody, joint: Joint) -> Seq<MessageView> {
    match upper.rotation(joint) {
        Some(q) => seq![joint_message(joint, q)],
        None => Seq::empty(),
    }
}

/// The messages of the first `n` joints of the reporting order.
pub open spec fn joint_batch(upper: UpperBody, n: nat) -> Seq<MessageView>
    decreases n,
{
    if n == 0 {
        Seq::empty()
    } else {
        joint_batch(upper, (n - 1) as nat) + joint_part(upper, Joint::at(n - 1))
    }
}

/// The batch that a schema builds from one tick's values.
pub open spec fn composed(schema: Schema, f: Frame, upper: UpperBody) -> Seq<MessageView> {
    match schema {
        Schema::Minimal => minimal_batch(f),
        Schema::ClusterBasic => cluster_batch(f),
        Schema::McUpper => minimal_batch(f) + joint_batch(upper, JOINT_COUNT as nat),
    }
}

/// Number of joints that are present among the first `n` of the reporting
/// order.
pub open spec fn present_count(upper: UpperBody, n: nat) -> nat
    decreases n,
{
    if n == 0 {
        0
    } else {
        present_count(upper, (n - 1) as nat) + if upper.rotation(Joint::at(n - 1)) is Some {
            1nat
        } else {
            0nat
        }
    }
}

/// The upper-body schema adds to the minimal batch and takes nothing from it:
/// its batch begins with the four minimal messages, and holds one message more
/// for each joint that is present, none for a joint that is absent.
pub proof fn lemma_upper_batch_shape(f: Frame, upper: UpperBody)
    ensures
        composed(Schema::McUpper, f, upper).len() == 4 + present_count(
            upper,
            JOINT_COUNT as nat,
        ),
        composed(Schema::McUpper, f, upper).take(4) == composed(Schema::Minimal, f, upper),
        composed(Schema::McUpper, f, UpperBody::empty()) == composed(Schema::Minimal, f, upper),
{
    lemma_joint_batch_len(upper, JOINT_COUNT as nat);
    lemma_joint_batch_len(UpperBody::empty(), JOINT_COUNT as nat);
    lemma_absent_joints_add_nothing(JOINT_COUNT as nat);
    let m = minimal_batch(f);
    assert((m + joint_batch(upper, JOINT_COUNT as nat)).take(4) =~= m);
    assert(m + Seq::<MessageView>::empty() =~= m);
}

proof fn lemma_joint_batch_len(upper: UpperBody, n: nat)
    ensures
        joint_batch(upper, n).len() == present_count(upper, n),
    decreases n,
{
    if n > 0 {
        lemma_joint_batch_len(upper, (n - 1) as nat);
    }
}

proof fn lemma_absent_joints_add_nothing(n: nat)
    ensures
        joint_batch(UpperBody::empty(), n) == Seq::<MessageView>::empty(),
    decreases n,
{
    if n > 0 {
        lemma_absent_joints_add_nothing((n - 1) as nat);
        assert(joint_batch(UpperBody::empty(), n) =~= Seq::<MessageView>::empty());
    }
}

impl Joint {
    /// The address under which the joint is reported.
    pub fn address(self) -> (r: &'static str)
        ensures
            r@ == joint_address(self),
    {
        match self {
            Joint::Chest => "/mc/ub/chest",
            Joint::LeftShoulder => "/mc/ub/l_shoulder",
            Joint::RightShoulder => "/mc/ub/r_shoulder",
            Joint::LeftUpperArm => "/mc/ub/l_upper_arm",
            Joint::RightUpperArm => "/mc/ub/r_upper_arm",
            Joint::LeftLowerArm => "/mc/ub/l_lower_arm",
            Joint::RightLowerArm => "/mc/ub/r_lower_arm",
            Joint::LeftWrist => "/mc/ub/l_wrist",
            Joint::RightWrist => "/mc/ub/r_wrist",
        }
    }
}

impl Message {
    /// A message with one numeric argument.
    pub fn scalar(addr: &str, value: Binary32) -> (m: Message)
        ensures
            m@ == float_message(addr@, seq![value]),
    {
        let m = Message { addr: String::from_str(addr), args: vec![Arg::Float(value)] };
        assert(m@.args =~= seq![value].map_values(|x: Binary32| ArgView::Float(x)));
        m
    }

    /// A message with three numeric arguments.
    pub fn triple(addr: &str, a: Binary32, b: Binary32, c: Binary32) -> (m: Message)
        ensures
            m@ == float_message(addr@, seq![a, b, c]),
    {
        let m = Message {
            addr: String::from_str(addr),
            args: vec![Arg::Float(a), Arg::Float(b), Arg::Float(c)],
        };
        assert(m@.args =~= seq![a, b, c].map_values(|x: Binary32| ArgView::Float(x)));
        m
    }

    /// The message that reports one joint rotation.
    pub fn rotation(joint: Joint, q: Quat) -> (m: Message)
        ensures
            m@ == joint_message(joint, q),
    {
        let m = Message {
            addr: String::from_str(joint.address()),
            args: vec![Arg::Float(q.x), Arg::Float(q.y), Arg::Float(q.z), Arg::Float(q.w)],
        };
        assert(m@.args =~= seq![q.x, q.y, q.z, q.w].map_values(|x: Binary32| ArgView::Float(x)));
        m
    }

    /// The liveness ping.
    pub fn ping() -> (m: Message)
        ensures
            m@ == ping_message(),
    {
        let m = Message {
            addr: String::from_str("/mc/ping"),
            args: vec![Arg::Text(String::from_str("ok"))],
        };
        assert(m@.args =~= seq![ArgView::Text("ok"@)]);
        m
    }
}

/// Builds one tick's batch for a schema.
///
/// The minimal schema gives ping, blink, mouth and head. The cluster schema
/// gives blink, jaw and head under its own addresses, without a ping. The
/// upper-body schema gives the minimal batch followed by one message for each
/// joint that is present, in the reporting order; an absent joint adds nothing.
pub fn compose(schema: Schema, frame: &Frame, upper: &UpperBody) -> (batch: Vec<Message>)
    ensures
        batch_view(batch@) == composed(schema, *frame, *upper),
{
    let mut batch: Vec<Message> = Vec::new();
    match schema {
        Schema::ClusterBasic => {
            batch.push(Message::scalar("/cluster/face/blink", frame.blink));
            batch.push(Message::scalar("/cluster/face/jawOpen", frame.mouth));
            batch.push(
                Message::triple(
                    "/cluster/head/euler",
                    frame.yaw_deg,
                    frame.pitch_deg,
                    frame.roll_deg,
                ),
            );
            assert(batch_view(batch@) =~= cluster_batch(*frame));
        },
        _ => {
            batch.push(Message::ping());
            batch.push(Message::scalar("/mc/blink", frame.blink));
            batch.push(Message::scalar("/mc/mouth", frame.mouth));
            batch.push(
                Message::triple("/mc/head", frame.yaw_deg, frame.pitch_deg, frame.roll_deg),
            );
            assert(batch_view(batch@) =~= minimal_batch(*frame));
        },
    }
    if let Schema::McUpper = schema {
        let mut i: usize = 0;
        assert(batch_view(batch@) =~= minimal_batch(*frame) + joint_batch(*upper, 0));
        while i < JOINT_COUNT
            invariant
                i <= JOINT_COUNT,
                batch_view(batch@) == minimal_batch(*frame) + joint_batch(*upper, i as nat),
            decreases JOINT_COUNT - i,
        {
            let ghost before = batch@;
            let ghost joint = Joint::at(i as int);
            if let Some(j) = Joint::from_index(i) {
                if let Some(q) = upper.get(j) {
                    batch.push(Message::rotation(j, q));
                    assert(batch_view(batch@) =~= batch_view(before) + seq![joint_message(j, q)]);
                }
            }
            assert(batch_view(batch@) == batch_view(before) + joint_part(*upper, joint));
            assert(joint_batch(*upper, (i + 1) as nat) == joint_batch(*upper, i as nat)
                + joint_part(*upper, joint));
            assert(batch_view(batch@) =~= minimal_batch(*frame) + joint_batch(
                *upper,
                (i + 1) as nat,
            ));
            i = i + 1;
        }
    }
    batch
}

} // verus!
