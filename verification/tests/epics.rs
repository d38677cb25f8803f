use bacnet::epics::{Epics, EpicsEvent, EpicsRequest, EpicsScan, EpicsStep};
use bacnet::errors::BACnetErr;
use bacnet::request::{ReadRequest, BACNET_ARRAY_ALL};
use bacnet::session::BACnetServer;
use bacnet::value::BACnetValue;

/// A device for an interrogation: it answers each read as `answer` says and
/// declares, for every type of object, the required properties `required` and
/// the optional ones `optional`.
fn interrogate(
    mut step: EpicsStep,
    required: &[u32],
    optional: &[u32],
    answer: &dyn Fn(&ReadRequest) -> Result<BACnetValue, BACnetErr>,
    asked: &mut Vec<EpicsRequest>,
) -> Result<Epics, BACnetErr> {
    loop {
        match step {
            EpicsStep::Next(scan) => {
                let request = scan.request();
                asked.push(request);
                let event = match request {
                    EpicsRequest::Read(read) => EpicsEvent::Read(answer(&read)),
                    EpicsRequest::PropertyLists { .. } => EpicsEvent::PropertyLists {
                        required: required.to_vec(),
                        optional: optional.to_vec(),
                    },
                };
                step = scan.step(event);
            }
            EpicsStep::Done(epics) => return Ok(epics),
            EpicsStep::Failed(err) => return Err(err),
        }
    }
}

fn object(object_type: u32, object_instance: u32) -> BACnetValue {
    BACnetValue::ObjectId { object_type, object_instance }
}

/// A device with an object list of length 3 whose second element is analog
/// input 1, whose third is binary output 2 and whose fourth is no object.
/// Every property reads as the instance number of its object.
fn small_device(request: &ReadRequest) -> Result<BACnetValue, BACnetErr> {
    if request.property_id == 76 {
        match request.index {
            0 => Ok(BACnetValue::Uint(3)),
            2 => Ok(object(0, 1)),
            3 => Ok(object(4, 2)),
            4 => Ok(BACnetValue::Null),
            _ => Err(BACnetErr::Rejected { code: 0 }),
        }
    } else {
        Ok(BACnetValue::Uint(request.object_instance as u64))
    }
}

#[test]
fn epics_of_a_list_with_two_objects_has_two_maps_in_list_order() {
    let mut asked = vec![];
    let epics = interrogate(
        EpicsScan::start(260001, &vec![75, 76, 77], &vec![]),
        &[75, 77],
        &[],
        &small_device,
        &mut asked,
    )
    .unwrap();
    assert_eq!(epics.device.len(), 2);
    assert_eq!(epics.device.get(&75), Some(&BACnetValue::Uint(260001)));
    assert_eq!(epics.device.get(&77), Some(&BACnetValue::Uint(260001)));
    assert_eq!(epics.object_list.len(), 2);
    assert_eq!(epics.object_list[0].get(&75), Some(&BACnetValue::Uint(1)));
    assert_eq!(epics.object_list[0].get(&77), Some(&BACnetValue::Uint(1)));
    assert_eq!(epics.object_list[1].get(&75), Some(&BACnetValue::Uint(2)));
    assert_eq!(epics.object_list[1].get(&77), Some(&BACnetValue::Uint(2)));
}

#[test]
fn epics_asks_in_order() {
    let mut asked = vec![];
    interrogate(
        EpicsScan::start(260001, &vec![75, 76], &vec![]),
        &[77],
        &[],
        &small_device,
        &mut asked,
    )
    .unwrap();
    let read = |object_type, object_instance, property_id, index| {
        EpicsRequest::Read(ReadRequest { object_type, object_instance, property_id, index })
    };
    assert_eq!(
        asked,
        vec![
            read(8, 260001, 75, BACNET_ARRAY_ALL),
            read(8, 260001, 76, 0),
            read(8, 260001, 76, 2),
            read(8, 260001, 76, 3),
            read(8, 260001, 76, 4),
            EpicsRequest::PropertyLists { object_type: 0 },
            read(0, 1, 77, BACNET_ARRAY_ALL),
            EpicsRequest::PropertyLists { object_type: 4 },
            read(4, 2, 77, BACNET_ARRAY_ALL),
        ]
    );
}

#[test]
fn epics_from_a_session() {
    let server = BACnetServer::builder().device_id(260001).build();
    let mut asked = vec![];
    let epics =
        interrogate(server.epics(&vec![75], &vec![]), &[75], &[], &small_device, &mut asked)
            .unwrap();
    assert_eq!(epics.device.get(&75), Some(&BACnetValue::Uint(260001)));
    assert_eq!(epics.object_list.len(), 2);
}

#[test]
fn epics_of_a_device_without_declared_properties_reads_the_list_first() {
    let mut asked = vec![];
    let epics =
        interrogate(EpicsScan::start(5, &vec![], &vec![]), &[], &[], &small_device, &mut asked)
            .unwrap();
    assert!(epics.device.is_empty());
    assert_eq!(epics.object_list.len(), 2);
    assert!(epics.object_list[0].is_empty());
    assert!(epics.object_list[1].is_empty());
    assert_eq!(
        asked[0],
        EpicsRequest::Read(ReadRequest {
            object_type: 8,
            object_instance: 5,
            property_id: 76,
            index: 0,
        })
    );
}

#[test]
fn epics_with_an_empty_list_reads_no_element() {
    let mut asked = vec![];
    let epics = interrogate(
        EpicsScan::start(5, &vec![75], &vec![]),
        &[75],
        &[],
        &|request| {
            if request.property_id == 76 {
                Ok(BACnetValue::Uint(0))
            } else {
                Ok(BACnetValue::Null)
            }
        },
        &mut asked,
    )
    .unwrap();
    assert_eq!(epics.object_list.len(), 0);
    assert_eq!(asked.len(), 2);
}

#[test]
fn epics_reads_the_elements_from_2_to_the_length_and_one_more() {
    for length in [1u32, 2, 3, 7] {
        let mut asked = vec![];
        let epics = interrogate(
            EpicsScan::start(5, &vec![], &vec![]),
            &[],
            &[],
            &|request| {
                if request.index == 0 {
                    Ok(BACnetValue::Uint(length as u64))
                } else {
                    Ok(object(0, request.index))
                }
            },
            &mut asked,
        )
        .unwrap();
        let indexes: Vec<u32> = asked
            .iter()
            .filter_map(|request| match request {
                EpicsRequest::Read(read) if read.property_id == 76 => Some(read.index),
                _ => None,
            })
            .collect();
        let mut expected = vec![0];
        expected.extend(2..=length + 1);
        assert_eq!(indexes, expected);
        assert!(!indexes.contains(&1));
        assert_eq!(epics.object_list.len(), length as usize);
    }
}

#[test]
fn epics_passes_over_a_listed_value_that_is_no_object() {
    let mut asked = vec![];
    let epics = interrogate(
        EpicsScan::start(5, &vec![], &vec![]),
        &[75],
        &[],
        &|request| {
            if request.property_id == 76 {
                match request.index {
                    0 => Ok(BACnetValue::Uint(4)),
                    3 => Ok(BACnetValue::Uint(99)),
                    i => Ok(object(0, i)),
                }
            } else {
                Ok(BACnetValue::Uint(request.object_instance as u64))
            }
        },
        &mut asked,
    )
    .unwrap();
    assert_eq!(epics.object_list.len(), 3);
    assert_eq!(epics.object_list[0].get(&75), Some(&BACnetValue::Uint(2)));
    assert_eq!(epics.object_list[1].get(&75), Some(&BACnetValue::Uint(4)));
    assert_eq!(epics.object_list[2].get(&75), Some(&BACnetValue::Uint(5)));
}

#[test]
fn epics_fails_where_the_length_of_the_list_is_no_number() {
    let mut asked = vec![];
    let res = interrogate(
        EpicsScan::start(5, &vec![], &vec![]),
        &[],
        &[],
        &|_| Ok(BACnetValue::Int(3)),
        &mut asked,
    );
    assert_eq!(res, Err(BACnetErr::InvalidValue));
    let mut asked = vec![];
    let res = interrogate(
        EpicsScan::start(5, &vec![], &vec![]),
        &[],
        &[],
        &|_| Ok(BACnetValue::Uint(u32::MAX as u64)),
        &mut asked,
    );
    assert_eq!(res, Err(BACnetErr::InvalidValue));
    // the last element would be the index that stands for the whole list
    let mut asked = vec![];
    let res = interrogate(
        EpicsScan::start(5, &vec![], &vec![]),
        &[],
        &[],
        &|_| Ok(BACnetValue::Uint(u32::MAX as u64 - 1)),
        &mut asked,
    );
    assert_eq!(res, Err(BACnetErr::InvalidValue));
}

#[test]
fn epics_fails_where_the_list_cannot_be_read() {
    let unknown = BACnetErr::Error {
        class_text: String::from("property"),
        class: 2,
        text: String::from("unknown-property"),
        code: 32,
    };
    let mut asked = vec![];
    let res = interrogate(
        EpicsScan::start(5, &vec![], &vec![]),
        &[],
        &[],
        &|_| Err(unknown.clone()),
        &mut asked,
    );
    assert_eq!(res, Err(unknown.clone()));
    assert_eq!(asked.len(), 1);

    let mut asked = vec![];
    let res = interrogate(
        EpicsScan::start(5, &vec![], &vec![]),
        &[],
        &[],
        &|request| {
            if request.index == 0 {
                Ok(BACnetValue::Uint(3))
            } else if request.index == 2 {
                Ok(object(0, 1))
            } else {
                Err(BACnetErr::Rejected { code: 2 })
            }
        },
        &mut asked,
    );
    assert_eq!(res, Err(BACnetErr::Rejected { code: 2 }));
    assert_eq!(asked.len(), 3);
}

#[test]
fn epics_fails_on_a_timeout_in_any_scan() {
    // in the scan of the device object
    let mut asked = vec![];
    let res = interrogate(
        EpicsScan::start(5, &vec![75], &vec![]),
        &[75],
        &[],
        &|_| Err(BACnetErr::TsmTimeout),
        &mut asked,
    );
    assert_eq!(res, Err(BACnetErr::TsmTimeout));
    assert_eq!(asked.len(), 1);
    // in the scan of the second object
    let mut asked = vec![];
    let res = interrogate(
        EpicsScan::start(5, &vec![75], &vec![]),
        &[75],
        &[],
        &|request| {
            if request.object_type == 4 {
                Err(BACnetErr::ApduTimeout)
            } else {
                small_device(request)
            }
        },
        &mut asked,
    );
    assert_eq!(res, Err(BACnetErr::ApduTimeout));
}

#[test]
fn epics_leaves_out_what_an_object_does_not_know() {
    let unknown = BACnetErr::Error {
        class_text: String::from("property"),
        class: 2,
        text: String::from("unknown-property"),
        code: 32,
    };
    let mut asked = vec![];
    let epics = interrogate(
        EpicsScan::start(5, &vec![75], &vec![]),
        &[75, 77],
        &[28],
        &|request| {
            if request.object_type == 0 && request.property_id == 77 {
                Err(unknown.clone())
            } else {
                small_device(request)
            }
        },
        &mut asked,
    )
    .unwrap();
    assert_eq!(epics.object_list.len(), 2);
    assert_eq!(epics.object_list[0].len(), 2);
    assert!(!epics.object_list[0].contains_key(&77));
    assert_eq!(epics.object_list[1].len(), 3);
}

#[test]
fn epics_ignores_what_it_did_not_wait_for() {
    let step = EpicsScan::start(5, &vec![75], &vec![]);
    let scan = match step {
        EpicsStep::Next(scan) => scan,
        _ => panic!("the interrogation waits for a read"),
    };
    let before = scan.request();
    let step = scan.step(EpicsEvent::PropertyLists { required: vec![1], optional: vec![2] });
    let scan = match step {
        EpicsStep::Next(scan) => scan,
        _ => panic!("the interrogation still waits for the read"),
    };
    assert_eq!(scan.request(), before);
}
