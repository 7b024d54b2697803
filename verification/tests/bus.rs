use owrust::bus_thread::answer;
use owrust::bus_thread::default_description;
use owrust::bus_thread::reply_of;
use owrust::bus_thread::reply_result;
use owrust::bus_thread::BusCmd;
use owrust::bus_thread::BusHandle;
use owrust::bus_thread::BusList;
use owrust::bus_thread::BusQuery;
use owrust::bus_thread::BusReturn;
use owrust::bus_thread::BusThread;
use owrust::error::OwError;
use std::sync::mpsc;

struct Recorder {
    log: Vec<String>,
    fail_reset: bool,
}

impl BusThread for Recorder {
    fn reset(&mut self) -> Result<BusReturn, OwError> {
        self.log.push("reset".to_string());
        if self.fail_reset {
            Err(OwError::General("no bus".to_string()))
        } else {
            Ok(BusReturn::Bool(true))
        }
    }

    fn status(&self) -> Result<BusReturn, OwError> {
        Ok(BusReturn::Bool(false))
    }

    fn write(&mut self, data: Vec<u8>) -> Result<BusReturn, OwError> {
        self.log.push(format!("write {}", data.len()));
        Ok(BusReturn::Bytes(data))
    }
}

#[test]
fn commands_reach_the_operations() {
    let mut bus = Recorder { log: vec![], fail_reset: false };
    assert_eq!(bus.command(BusCmd::Reset), Ok(BusReturn::Bool(true)));
    assert_eq!(bus.command(BusCmd::Status), Ok(BusReturn::Bool(false)));
    assert_eq!(
        bus.command(BusCmd::Description),
        Ok(BusReturn::String("Unspecified 1-wire bus".to_string()))
    );
    assert_eq!(default_description(), BusReturn::String("Unspecified 1-wire bus".to_string()));
    assert_eq!(reply_of(Ok(BusReturn::Bool(true))), BusReturn::Bool(true));
    assert_eq!(reply_of(Err(OwError::TopologyLoop)), BusReturn::Bad);
    assert_eq!(bus.command(BusCmd::Write(vec![1, 2])), Ok(BusReturn::Bytes(vec![1, 2])));
    assert_eq!(bus.command(BusCmd::RWrite(vec![3])), Ok(BusReturn::Bytes(vec![3])));
    assert_eq!(bus.log, vec!["reset", "write 2", "reset", "write 1"]);
}

struct Named {
    writes: usize,
}

impl BusThread for Named {
    fn reset(&mut self) -> Result<BusReturn, OwError> {
        Ok(BusReturn::Bool(false))
    }

    fn status(&self) -> Result<BusReturn, OwError> {
        Err(OwError::General("unplugged".to_string()))
    }

    fn description(&self) -> Result<BusReturn, OwError> {
        Ok(BusReturn::String("DS9097E".to_string()))
    }

    fn write(&mut self, data: Vec<u8>) -> Result<BusReturn, OwError> {
        self.writes += data.len();
        Ok(BusReturn::Bool(true))
    }
}

#[test]
fn adapter_that_names_itself() {
    let mut bus = Named { writes: 0 };
    assert_eq!(bus.description(), Ok(BusReturn::String("DS9097E".to_string())));
    assert_eq!(bus.command(BusCmd::Description), Ok(BusReturn::String("DS9097E".to_string())));
    assert_eq!(answer(&mut bus, BusCmd::Description), BusReturn::String("DS9097E".to_string()));
    assert_eq!(answer(&mut bus, BusCmd::Status), BusReturn::Bad);
    assert_eq!(bus.command(BusCmd::Status), Err(OwError::General("unplugged".to_string())));
    assert_eq!(bus.reset_write(vec![1, 2, 3]), Ok(BusReturn::Bool(true)));
    assert_eq!(answer(&mut bus, BusCmd::RWrite(vec![4])), BusReturn::Bool(true));
    assert_eq!(answer(&mut bus, BusCmd::Reset), BusReturn::Bool(false));
    assert_eq!(bus.writes, 4);
}

#[test]
fn adapter_without_a_name() {
    let bus = Recorder { log: vec![], fail_reset: false };
    assert_eq!(bus.description(), Ok(BusReturn::String("Unspecified 1-wire bus".to_string())));
    assert!(bus.log.is_empty());
}

#[test]
fn failed_reset_stops_the_write() {
    let mut bus = Recorder { log: vec![], fail_reset: true };
    assert_eq!(bus.reset_write(vec![1]), Err(OwError::General("no bus".to_string())));
    assert_eq!(bus.log, vec!["reset"]);
    assert_eq!(answer(&mut bus, BusCmd::RWrite(vec![1])), BusReturn::Bad);
    assert_eq!(answer(&mut bus, BusCmd::Write(vec![1])), BusReturn::Bytes(vec![1]));
}

#[test]
fn command_sent_to_a_bus_that_is_gone() {
    let (tx, rx) = mpsc::channel::<BusQuery>();
    drop(rx);
    let handle = BusHandle { tx };
    assert!(matches!(BusQuery::send(BusCmd::Reset, &handle), Err(OwError::General(_))));
    assert_eq!(reply_result(Some(BusReturn::Bad)), Ok(BusReturn::Bad));
    assert_eq!(reply_result(Some(BusReturn::Bytes(vec![1]))), Ok(BusReturn::Bytes(vec![1])));
    assert!(matches!(reply_result(None), Err(OwError::General(_))));
}

#[test]
fn bus_list_grows() {
    let mut buses = BusList::new();
    assert_eq!(buses.len(), 0);
    let (tx, rx) = mpsc::channel::<BusQuery>();
    buses.add(BusHandle { tx: tx.clone() });
    buses.add(BusHandle { tx });
    assert_eq!(buses.len(), 2);
    let (my_tx, my_rx) = mpsc::channel::<BusReturn>();
    let query = BusQuery::new(BusCmd::Status, my_tx);
    assert_eq!(query.cmd, BusCmd::Status);
    assert!(buses.list[1].tx.send(query).is_ok());
    let got = rx.recv().unwrap();
    assert!(got.my_tx.send(BusReturn::Bool(true)).is_ok());
    assert_eq!(my_rx.recv(), Ok(BusReturn::Bool(true)));
}
