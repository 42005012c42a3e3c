use netmachines::error::Error;
use netmachines::events::Events;
use netmachines::handlers::{RequestHandler, TransportHandler};
use netmachines::machine::Machine;
use netmachines::net::machines::TransportMachine;
use netmachines::next::Next;
use netmachines::request::{
    connected, secured, ClientMachine, Forward, Ready, RequestMachine, SeedFactory,
    TranslateError,
};
use netmachines::response::Response;
use netmachines::scope::Scope;
use netmachines::sockets::{Evented, SocketAddr, Transport};
use netmachines::sync::DuctSender;
use netmachines::time::Time;
use std::cell::RefCell;
use std::io;
use std::rc::Rc;

struct Idle;

impl rotor::Machine for Idle {
    type Context = ();
    type Seed = rotor::Void;

    fn create(seed: rotor::Void, _scope: &mut rotor::Scope<()>) -> rotor::Response<Self, rotor::Void> {
        rotor::void::unreachable(seed)
    }
    fn ready(self, _events: rotor::EventSet, _scope: &mut rotor::Scope<()>) -> rotor::Response<Self, rotor::Void> {
        rotor::Response::ok(self)
    }
    fn spawned(self, _scope: &mut rotor::Scope<()>) -> rotor::Response<Self, rotor::Void> {
        rotor::Response::ok(self)
    }
    fn timeout(self, _scope: &mut rotor::Scope<()>) -> rotor::Response<Self, rotor::Void> {
        rotor::Response::ok(self)
    }
    fn wakeup(self, _scope: &mut rotor::Scope<()>) -> rotor::Response<Self, rotor::Void> {
        rotor::Response::ok(self)
    }
}

/// A reactor that stays alive for the test, and a notifier into it.
fn reactor() -> (rotor::Loop<Idle>, rotor::Notifier) {
    let mut creator = rotor::Loop::<Idle>::new(&rotor::Config::new()).unwrap();
    let mut found = None;
    creator
        .add_machine_with(|scope| {
            found = Some(scope.notifier());
            rotor::Response::ok(Idle)
        })
        .unwrap();
    (creator, found.unwrap())
}

type Log = Rc<RefCell<Vec<String>>>;

struct Reactor {
    log: Log,
}

fn entries(log: &Log) -> Vec<String> {
    log.borrow().clone()
}

struct Sock {
    log: Log,
    port: u16,
}

impl Evented<Reactor> for Sock {
    fn register(&self, reactor: &mut Reactor, _interest: Events) -> Result<(), io::Error> {
        reactor.log.borrow_mut().push(format!("register {}", self.port));
        Ok(())
    }
    fn reregister(&self, reactor: &mut Reactor, _interest: Events) -> Result<(), io::Error> {
        reactor.log.borrow_mut().push(format!("reregister {}", self.port));
        Ok(())
    }
    fn deregister(&self, reactor: &mut Reactor) -> Result<(), io::Error> {
        reactor.log.borrow_mut().push(format!("deregister {}", self.port));
        Ok(())
    }
}

impl Transport for Sock {
    fn take_socket_error(&mut self) -> Result<(), io::Error> {
        Ok(())
    }
}

struct Talk;

impl TransportHandler<Sock> for Talk {
    type Seed = &'static str;

    fn create(seed: &'static str, sock: &mut Sock, _notifier: rotor::Notifier) -> Next<Self> {
        sock.log.borrow_mut().push(format!("create {} {}", sock.port, seed));
        Next::write(Talk)
    }
    fn readable(self, _sock: &mut Sock) -> Next<Self> {
        Next::remove()
    }
    fn writable(self, sock: &mut Sock) -> Next<Self> {
        sock.log.borrow_mut().push(format!("writable {}", sock.port));
        Next::read(self)
    }
    fn wakeup(self) -> Next<Self> {
        Next::wait(self)
    }
    fn remove(sock: Sock) {
        sock.log.borrow_mut().push(format!("remove {}", sock.port));
    }
}

/// A request names a port. Port 0 is dropped by the handler.
struct Requests {
    log: Log,
}

impl RequestHandler for Requests {
    type Request = u16;
    type Output = (SocketAddr, &'static str);

    fn request(&mut self, request: u16) -> Option<Self::Output> {
        self.log.borrow_mut().push(format!("request {}", request));
        if request == 0 {
            None
        } else {
            Some((SocketAddr::V4([10, 0, 0, 1], request), "hello"))
        }
    }

    fn error(&mut self, output: Self::Output, err: Error) {
        let port = match output.0 {
            SocketAddr::V4(_, port) => port,
            SocketAddr::V6(_, port, _, _) => port,
        };
        self.log.borrow_mut().push(format!("failed {} {} {}", port, output.1, err.description()));
    }
}

/// Opens sockets but for the ports above 1000.
struct Connector {
    log: Log,
}

impl SeedFactory<(SocketAddr, &'static str), (Sock, &'static str)> for Connector {
    fn translate(
        &self,
        output: (SocketAddr, &'static str),
    ) -> Result<(Sock, &'static str), TranslateError<(SocketAddr, &'static str)>> {
        let (addr, seed) = output;
        let port = match addr {
            SocketAddr::V4(_, port) => port,
            SocketAddr::V6(_, port, _, _) => port,
        };
        let sock = if port > 1000 {
            Err(io::Error::new(io::ErrorKind::Other, "unreachable"))
        } else {
            Ok(Sock { log: self.log.clone(), port })
        };
        connected(addr, seed, sock).map_err(|err| TranslateError(err.0, Error::Timeout))
    }
}

type Seed = (Sock, &'static str);
type Client = RequestMachine<TransportMachine<Sock, Talk>, Seed, Requests, Connector>;

fn client(log: &Log, notifier: rotor::Notifier) -> (Client, DuctSender<u16>, Scope<Reactor>) {
    let mut scope = Scope::new(Time::from_millis(1), notifier, Reactor { log: log.clone() });
    let (res, tx) = RequestMachine::new(
        Requests { log: log.clone() },
        Connector { log: log.clone() },
        &mut scope,
    );
    match res {
        Response::Normal(m) => (m, tx, scope),
        _ => panic!("no client"),
    }
}

/// Drives the client as the reactor does after a wakeup.
fn woken(client: Client, scope: &mut Scope<Reactor>) -> (Option<Client>, Vec<Client>) {
    let mut spawned = Vec::new();
    let mut res = client.wakeup(scope);
    loop {
        match res {
            Response::Spawn(m, seed) => {
                match <Client as Machine<Reactor>>::create(seed, scope) {
                    Response::Normal(conn) => spawned.push(conn),
                    _ => panic!("the transport was not created"),
                }
                res = m.spawned(scope);
            }
            Response::Normal(m) => return (Some(m), spawned),
            Response::Done => return (None, spawned),
            _ => panic!("the client answered otherwise"),
        }
    }
}

#[test]
fn requests_spawn_transports() {
    let log: Log = Rc::new(RefCell::new(Vec::new()));
    let (_creator, notifier) = reactor();
    let (client, tx, mut scope) = client(&log, notifier);
    assert!(tx.send(80).is_ok());
    assert!(tx.send(443).is_ok());
    let (client, spawned) = woken(client, &mut scope);
    assert!(client.is_some());
    assert_eq!(spawned.len(), 2);
    assert_eq!(
        entries(&log),
        vec![
            "request 80",
            "create 80 hello",
            "register 80",
            "request 443",
            "create 443 hello",
            "register 443",
        ]
    );
}

#[test]
fn dropped_and_failed_requests_do_not_stop_the_drain() {
    let log: Log = Rc::new(RefCell::new(Vec::new()));
    let (_creator, notifier) = reactor();
    let (client, tx, mut scope) = client(&log, notifier);
    for port in [0u16, 2000, 25, 0, 3000, 26] {
        assert!(tx.send(port).is_ok());
    }
    let (client, spawned) = woken(client, &mut scope);
    assert!(client.is_some());
    assert_eq!(spawned.len(), 2);
    assert_eq!(
        entries(&log),
        vec![
            "request 0",
            "request 2000",
            "failed 2000 hello Timeout",
            "request 25",
            "create 25 hello",
            "register 25",
            "request 0",
            "request 3000",
            "failed 3000 hello Timeout",
            "request 26",
            "create 26 hello",
            "register 26",
        ]
    );
}

#[test]
fn empty_duct_lets_the_client_wait() {
    let log: Log = Rc::new(RefCell::new(Vec::new()));
    let (_creator, notifier) = reactor();
    let (client, _tx, mut scope) = client(&log, notifier);
    let (client, spawned) = woken(client, &mut scope);
    assert!(client.is_some());
    assert!(spawned.is_empty());
    assert!(entries(&log).is_empty());
}

#[test]
fn client_ends_with_its_senders() {
    let log: Log = Rc::new(RefCell::new(Vec::new()));
    let (_creator, notifier) = reactor();
    let (client, tx, mut scope) = client(&log, notifier);
    let other = tx.clone();
    assert!(tx.send(7).is_ok());
    drop(tx);
    let (client, spawned) = woken(client, &mut scope);
    assert_eq!(spawned.len(), 1);
    // One sender is left: the client lives.
    let client = client.unwrap();
    drop(other);
    let (client, spawned) = woken(client, &mut scope);
    assert!(client.is_none());
    assert!(spawned.is_empty());
}

#[test]
fn client_ignores_readiness() {
    let log: Log = Rc::new(RefCell::new(Vec::new()));
    let (_creator, notifier) = reactor();
    let (client, tx, mut scope) = client(&log, notifier);
    assert!(tx.send(80).is_ok());
    let res = client.ready(Events::readable(), &mut scope);
    assert!(matches!(res, Response::Normal(_)));
    assert!(entries(&log).is_empty());
}

#[test]
fn client_drains_on_timeout_too() {
    let log: Log = Rc::new(RefCell::new(Vec::new()));
    let (_creator, notifier) = reactor();
    let (client, tx, mut scope) = client(&log, notifier);
    assert!(tx.send(80).is_ok());
    let res = client.timeout(&mut scope);
    assert!(matches!(res, Response::Spawn(_, _)));
    assert_eq!(entries(&log), vec!["request 80"]);
}

#[test]
fn spawned_transport_is_driven_through_the_client() {
    let log: Log = Rc::new(RefCell::new(Vec::new()));
    let (_creator, notifier) = reactor();
    let (client, tx, mut scope) = client(&log, notifier);
    assert!(tx.send(80).is_ok());
    let (_client, spawned) = woken(client, &mut scope);
    log.borrow_mut().clear();
    let conn = spawned.into_iter().next().unwrap();
    let conn = match conn.ready(Events::writable(), &mut scope) {
        Response::Normal(m) => m,
        _ => panic!("the transport is gone"),
    };
    let conn = match conn.wakeup(&mut scope) {
        Response::Normal(m) => m,
        _ => panic!("the transport is gone"),
    };
    let conn = match conn.spawned(&mut scope) {
        Response::Normal(m) => m,
        _ => panic!("the transport is gone"),
    };
    let res = conn.timeout(&mut scope);
    assert!(matches!(res, Response::Done));
    assert_eq!(
        entries(&log),
        vec!["writable 80", "reregister 80", "reregister 80", "deregister 80", "remove 80"]
    );
}

#[test]
fn connected_keeps_the_socket_or_hands_the_request_back() {
    let made: Result<(u8, &str), TranslateError<(u16, &str)>> = connected(80u16, "seed", Ok(3u8));
    match made {
        Ok((sock, seed)) => {
            assert_eq!(sock, 3);
            assert_eq!(seed, "seed");
        }
        Err(_) => panic!("a socket was there"),
    }
    let failed: Result<(u8, &str), TranslateError<(u16, &str)>> =
        connected(80u16, "seed", Err(io::Error::new(io::ErrorKind::Other, "down")));
    match failed {
        Err(TranslateError((addr, seed), Error::Io(err))) => {
            assert_eq!(addr, 80);
            assert_eq!(seed, "seed");
            assert_eq!(err.kind(), io::ErrorKind::Other);
        }
        _ => panic!("no socket was there"),
    }
}

/// A socket that can be sent between threads.
struct Quiet {
    port: u16,
}

impl Evented<Reactor> for Quiet {
    fn register(&self, _reactor: &mut Reactor, _interest: Events) -> Result<(), io::Error> {
        Ok(())
    }
    fn reregister(&self, _reactor: &mut Reactor, _interest: Events) -> Result<(), io::Error> {
        Ok(())
    }
    fn deregister(&self, _reactor: &mut Reactor) -> Result<(), io::Error> {
        Ok(())
    }
}

impl Transport for Quiet {
    fn take_socket_error(&mut self) -> Result<(), io::Error> {
        Ok(())
    }
}

struct Mute;

impl TransportHandler<Quiet> for Mute {
    type Seed = &'static str;

    fn create(_seed: &'static str, _sock: &mut Quiet, _notifier: rotor::Notifier) -> Next<Self> {
        Next::read(Mute)
    }
    fn readable(self, _sock: &mut Quiet) -> Next<Self> {
        Next::read(self)
    }
    fn writable(self, _sock: &mut Quiet) -> Next<Self> {
        Next::read(self)
    }
    fn wakeup(self) -> Next<Self> {
        Next::read(self)
    }
}

#[test]
fn client_machine_spawns_the_seeds_it_is_sent() {
    let log: Log = Rc::new(RefCell::new(Vec::new()));
    let (_creator, notifier) = reactor();
    let mut scope = Scope::new(Time::from_millis(1), notifier, Reactor { log: log.clone() });
    type Seeds = ClientMachine<TransportMachine<Quiet, Mute>, (Quiet, &'static str)>;
    let (res, tx) = RequestMachine::new(Forward::new(), Ready, &mut scope);
    let client: Seeds = match res {
        Response::Normal(m) => m,
        _ => panic!("no client"),
    };
    assert!(tx.send((Quiet { port: 5 }, "five")).is_ok());
    assert!(tx.send((Quiet { port: 6 }, "six")).is_ok());
    let client = match client.wakeup(&mut scope) {
        Response::Spawn(m, (sock, seed)) => {
            assert_eq!(sock.port, 5);
            assert_eq!(seed, "five");
            m
        }
        _ => panic!("nothing to spawn"),
    };
    let client = match client.spawned(&mut scope) {
        Response::Spawn(m, (sock, seed)) => {
            assert_eq!(sock.port, 6);
            assert_eq!(seed, "six");
            m
        }
        _ => panic!("nothing to spawn"),
    };
    let client = match client.spawned(&mut scope) {
        Response::Normal(m) => m,
        _ => panic!("the duct was not empty"),
    };
    drop(tx);
    assert!(matches!(client.wakeup(&mut scope), Response::Done));
}

#[test]
fn secured_keeps_the_socket_or_hands_the_request_back() {
    let made: Result<(u8, &str), TranslateError<(u16, &str)>> = secured(443u16, "seed", Ok(3u8));
    match made {
        Ok((sock, seed)) => {
            assert_eq!(sock, 3);
            assert_eq!(seed, "seed");
        }
        Err(_) => panic!("a socket was there"),
    }
    let failed: Result<(u8, &str), TranslateError<(u16, &str)>> =
        secured(443u16, "seed", Err(Error::Tls));
    match failed {
        Err(TranslateError((addr, seed), Error::Tls)) => {
            assert_eq!(addr, 443);
            assert_eq!(seed, "seed");
        }
        _ => panic!("no socket was there"),
    }
}
