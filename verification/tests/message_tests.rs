use motioncast::binary32::Binary32;
use motioncast::message::{compose, Arg, Frame, Message};
use motioncast::pose::{Joint, Quat, UpperBody, JOINT_COUNT};
use motioncast::schema::Schema;

fn w(x: f32) -> Binary32 {
    Binary32::from_bits(x.to_bits())
}

fn frame() -> Frame {
    Frame {
        blink: w(0.25),
        mouth: w(0.75),
        yaw_deg: w(10.0),
        pitch_deg: w(-20.0),
        roll_deg: w(30.0),
    }
}

fn quat(x: f32, y: f32, z: f32, q: f32) -> Quat {
    Quat { x: w(x), y: w(y), z: w(z), w: w(q) }
}

fn floats(addr: &str, values: &[f32]) -> Message {
    Message { addr: addr.to_string(), args: values.iter().map(|v| Arg::Float(w(*v))).collect() }
}

fn minimal_expected() -> Vec<Message> {
    vec![
        Message { addr: "/mc/ping".to_string(), args: vec![Arg::Text("ok".to_string())] },
        floats("/mc/blink", &[0.25]),
        floats("/mc/mouth", &[0.75]),
        floats("/mc/head", &[10.0, -20.0, 30.0]),
    ]
}

fn full_upper() -> UpperBody {
    UpperBody {
        chest: Some(quat(0.1, 0.2, 0.3, 0.4)),
        l_shoulder: Some(quat(1.1, 1.2, 1.3, 1.4)),
        r_shoulder: Some(quat(2.1, 2.2, 2.3, 2.4)),
        l_upper_arm: Some(quat(3.1, 3.2, 3.3, 3.4)),
        r_upper_arm: Some(quat(4.1, 4.2, 4.3, 4.4)),
        l_lower_arm: Some(quat(5.1, 5.2, 5.3, 5.4)),
        r_lower_arm: Some(quat(6.1, 6.2, 6.3, 6.4)),
        l_wrist: Some(quat(7.1, 7.2, 7.3, 7.4)),
        r_wrist: Some(quat(8.1, 8.2, 8.3, 8.4)),
    }
}

#[test]
fn minimal_schema_gives_four_messages() {
    let got = compose(Schema::Minimal, &frame(), &UpperBody::default());
    assert_eq!(got, minimal_expected());
}

#[test]
fn minimal_schema_ignores_the_upper_body() {
    let got = compose(Schema::Minimal, &frame(), &full_upper());
    assert_eq!(got, minimal_expected());
}

#[test]
fn cluster_schema_gives_three_messages_without_ping() {
    let got = compose(Schema::ClusterBasic, &frame(), &full_upper());
    let want = vec![
        floats("/cluster/face/blink", &[0.25]),
        floats("/cluster/face/jawOpen", &[0.75]),
        floats("/cluster/head/euler", &[10.0, -20.0, 30.0]),
    ];
    assert_eq!(got, want);
}

#[test]
fn upper_schema_with_only_chest() {
    let mut u = UpperBody::default();
    u.chest = Some(quat(0.0, 0.0, 0.0, 1.0));
    let got = compose(Schema::McUpper, &frame(), &u);
    let mut want = minimal_expected();
    want.push(floats("/mc/ub/chest", &[0.0, 0.0, 0.0, 1.0]));
    assert_eq!(got.len(), 5);
    assert_eq!(got, want);
    assert_eq!(got.iter().filter(|m| m.addr.starts_with("/mc/ub/")).count(), 1);
}

#[test]
fn upper_schema_without_joints_is_the_minimal_batch() {
    let got = compose(Schema::McUpper, &frame(), &UpperBody::default());
    assert_eq!(got, minimal_expected());
}

#[test]
fn upper_schema_with_every_joint_keeps_the_order() {
    let got = compose(Schema::McUpper, &frame(), &full_upper());
    let mut want = minimal_expected();
    want.push(floats("/mc/ub/chest", &[0.1, 0.2, 0.3, 0.4]));
    want.push(floats("/mc/ub/l_shoulder", &[1.1, 1.2, 1.3, 1.4]));
    want.push(floats("/mc/ub/r_shoulder", &[2.1, 2.2, 2.3, 2.4]));
    want.push(floats("/mc/ub/l_upper_arm", &[3.1, 3.2, 3.3, 3.4]));
    want.push(floats("/mc/ub/r_upper_arm", &[4.1, 4.2, 4.3, 4.4]));
    want.push(floats("/mc/ub/l_lower_arm", &[5.1, 5.2, 5.3, 5.4]));
    want.push(floats("/mc/ub/r_lower_arm", &[6.1, 6.2, 6.3, 6.4]));
    want.push(floats("/mc/ub/l_wrist", &[7.1, 7.2, 7.3, 7.4]));
    want.push(floats("/mc/ub/r_wrist", &[8.1, 8.2, 8.3, 8.4]));
    assert_eq!(got.len(), 13);
    assert_eq!(got, want);
}

#[test]
fn upper_schema_skips_absent_joints() {
    let mut u = UpperBody::default();
    u.r_shoulder = Some(quat(1.0, 2.0, 3.0, 4.0));
    u.l_wrist = Some(quat(5.0, 6.0, 7.0, 8.0));
    let got = compose(Schema::McUpper, &frame(), &u);
    let mut want = minimal_expected();
    want.push(floats("/mc/ub/r_shoulder", &[1.0, 2.0, 3.0, 4.0]));
    want.push(floats("/mc/ub/l_wrist", &[5.0, 6.0, 7.0, 8.0]));
    assert_eq!(got, want);
}

#[test]
fn each_joint_alone_adds_exactly_its_own_message() {
    let names = [
        "chest",
        "l_shoulder",
        "r_shoulder",
        "l_upper_arm",
        "r_upper_arm",
        "l_lower_arm",
        "r_lower_arm",
        "l_wrist",
        "r_wrist",
    ];
    for i in 0..JOINT_COUNT {
        let q = Some(quat(i as f32, 0.0, 0.0, 1.0));
        let mut u = UpperBody::default();
        match Joint::from_index(i).unwrap() {
            Joint::Chest => u.chest = q,
            Joint::LeftShoulder => u.l_shoulder = q,
            Joint::RightShoulder => u.r_shoulder = q,
            Joint::LeftUpperArm => u.l_upper_arm = q,
            Joint::RightUpperArm => u.r_upper_arm = q,
            Joint::LeftLowerArm => u.l_lower_arm = q,
            Joint::RightLowerArm => u.r_lower_arm = q,
            Joint::LeftWrist => u.l_wrist = q,
            Joint::RightWrist => u.r_wrist = q,
        }
        let got = compose(Schema::McUpper, &frame(), &u);
        assert_eq!(got.len(), 5);
        assert_eq!(got[4], floats(&format!("/mc/ub/{}", names[i]), &[i as f32, 0.0, 0.0, 1.0]));
        assert_eq!(Joint::from_index(i).unwrap().address(), format!("/mc/ub/{}", names[i]));
    }
}

#[test]
fn values_pass_through_bit_for_bit() {
    let f = Frame {
        blink: Binary32::from_bits(0x7fc0_0001),
        mouth: Binary32::from_bits(0x8000_0000),
        yaw_deg: Binary32::from_bits(0x0000_0001),
        pitch_deg: Binary32::from_bits(0xff80_0000),
        roll_deg: Binary32::from_bits(0x42b4_0000),
    };
    let got = compose(Schema::ClusterBasic, &f, &UpperBody::default());
    assert_eq!(got[0].args, vec![Arg::Float(Binary32::from_bits(0x7fc0_0001))]);
    assert_eq!(got[1].args, vec![Arg::Float(Binary32::from_bits(0x8000_0000))]);
    assert_eq!(
        got[2].args,
        vec![
            Arg::Float(Binary32::from_bits(0x0000_0001)),
            Arg::Float(Binary32::from_bits(0xff80_0000)),
            Arg::Float(Binary32::from_bits(0x42b4_0000)),
        ]
    );
}

#[test]
fn message_builders() {
    assert_eq!(Message::scalar("/a", w(1.0)), floats("/a", &[1.0]));
    assert_eq!(Message::triple("/b", w(1.0), w(2.0), w(3.0)), floats("/b", &[1.0, 2.0, 3.0]));
    assert_eq!(
        Message::rotation(Joint::LeftWrist, quat(1.0, 2.0, 3.0, 4.0)),
        floats("/mc/ub/l_wrist", &[1.0, 2.0, 3.0, 4.0])
    );
    assert_eq!(
        Message::ping(),
        Message { addr: "/mc/ping".to_string(), args: vec![Arg::Text("ok".to_string())] }
    );
}

#[test]
fn composed_batches_encode_as_osc_datagrams() {
    let mut u = UpperBody::default();
    u.chest = Some(quat(0.0, 0.0, 0.0, 1.0));
    let batch = compose(Schema::McUpper, &frame(), &u);
    let mut datagrams: Vec<Vec<u8>> = Vec::new();
    for m in &batch {
        let args = m
            .args
            .iter()
            .map(|a| match a {
                Arg::Float(x) => rosc::OscType::Float(f32::from_bits(x.to_bits())),
                Arg::Text(s) => rosc::OscType::String(s.clone()),
            })
            .collect();
        let packet = rosc::OscPacket::Message(rosc::OscMessage { addr: m.addr.clone(), args });
        datagrams.push(rosc::encoder::encode(&packet).unwrap());
    }
    assert_eq!(datagrams.len(), 5);
    assert_eq!(datagrams[0], b"/mc/ping\0\0\0\0,s\0\0ok\0\0".to_vec());
    let mut blink = b"/mc/blink\0\0\0,f\0\0".to_vec();
    blink.extend_from_slice(&0.25f32.to_bits().to_be_bytes());
    assert_eq!(datagrams[1], blink);
    let mut head = b"/mc/head\0\0\0\0,fff\0\0\0\0".to_vec();
    head.extend_from_slice(&10.0f32.to_be_bytes());
    head.extend_from_slice(&(-20.0f32).to_be_bytes());
    head.extend_from_slice(&30.0f32.to_be_bytes());
    assert_eq!(datagrams[3], head);
    let mut chest = b"/mc/ub/chest\0\0\0\0,ffff\0\0\0".to_vec();
    chest.extend_from_slice(&[0, 0, 0, 0, 0, 0, 0, 0, 0, 0, 0, 0, 0x3f, 0x80, 0, 0]);
    assert_eq!(datagrams[4], chest);
}
