use netmachines::error::Error;
use netmachines::events::Events;
use netmachines::handlers::{AcceptHandler, TransportHandler};
use netmachines::machine::Machine;
use netmachines::net::machines::ServerMachine;
use netmachines::next::Next;
use netmachines::response::Response;
use netmachines::scope::Scope;
use netmachines::sockets::{Accept, Evented, SocketAddr, Transport};
use netmachines::time::Time;
use std::cell::RefCell;
use std::collections::VecDeque;
use std::io;
use std::rc::Rc;

struct Idle;

impl rotor::Machine for Idle {
    type Context = ();
    type Seed = rotor::Void;

    fn create(seed: rotor::Void, _scope: &mut rotor::Scope<()>) -> rotor::Response<Self, rotor::Void> {
        rotor::void::unreachable(seed)
    }
    fn ready(self, _events: rotor::EventSet, _scope: &mut rotor::Scope<()>) -> rotor::Response<Self, rotor::Void> {
        rotor::Response::ok(self)
    }
    fn spawned(self, _scope: &mut rotor::Scope<()>) -> rotor::Response<Self, rotor::Void> {
        rotor::Response::ok(self)
    }
    fn timeout(self, _scope: &mut rotor::Scope<()>) -> rotor::Response<Self, rotor::Void> {
        rotor::Response::ok(self)
    }
    fn wakeup(self, _scope: &mut rotor::Scope<()>) -> rotor::Response<Self, rotor::Void> {
        rotor::Response::ok(self)
    }
}

fn notifier() -> rotor::Notifier {
    let mut creator = rotor::Loop::<Idle>::new(&rotor::Config::new()).unwrap();
    let mut found = None;
    creator
        .add_machine_with(|scope| {
            found = Some(scope.notifier());
            rotor::Response::ok(Idle)
        })
        .unwrap();
    found.unwrap()
}

type Log = Rc<RefCell<Vec<String>>>;

struct Reactor {
    log: Log,
    refuse: bool,
}

fn scope(log: &Log) -> Scope<Reactor> {
    Scope::new(Time::from_millis(1), notifier(), Reactor { log: log.clone(), refuse: false })
}

fn entries(log: &Log) -> Vec<String> {
    log.borrow().clone()
}

fn addr(port: u16) -> SocketAddr {
    SocketAddr::V4([127, 0, 0, 1], port)
}

/// A connection; it knows the port of its peer.
struct Conn {
    log: Log,
    port: u16,
}

impl Evented<Reactor> for Conn {
    fn register(&self, reactor: &mut Reactor, interest: Events) -> Result<(), io::Error> {
        reactor.log.borrow_mut().push(format!(
            "register conn {} readable={}",
            self.port, interest.readable
        ));
        Ok(())
    }
    fn reregister(&self, reactor: &mut Reactor, _interest: Events) -> Result<(), io::Error> {
        reactor.log.borrow_mut().push(format!("reregister conn {}", self.port));
        Ok(())
    }
    fn deregister(&self, reactor: &mut Reactor) -> Result<(), io::Error> {
        reactor.log.borrow_mut().push(format!("deregister conn {}", self.port));
        Ok(())
    }
}

impl Transport for Conn {
    fn take_socket_error(&mut self) -> Result<(), io::Error> {
        Ok(())
    }
}

/// What the listener finds when it accepts.
enum Pending {
    Peer(u16),
    Failure,
}

struct Listener {
    log: Log,
    queue: RefCell<VecDeque<Pending>>,
}

impl Listener {
    fn new(log: &Log, queue: Vec<Pending>) -> Listener {
        Listener { log: log.clone(), queue: RefCell::new(queue.into_iter().collect()) }
    }
}

impl Evented<Reactor> for Listener {
    fn register(&self, reactor: &mut Reactor, interest: Events) -> Result<(), io::Error> {
        if reactor.refuse {
            return Err(io::Error::new(io::ErrorKind::Other, "refused"));
        }
        reactor.log.borrow_mut().push(format!(
            "register listener readable={} writable={}",
            interest.readable, interest.writable
        ));
        Ok(())
    }
    fn reregister(&self, reactor: &mut Reactor, _interest: Events) -> Result<(), io::Error> {
        reactor.log.borrow_mut().push("reregister listener".to_string());
        Ok(())
    }
    fn deregister(&self, reactor: &mut Reactor) -> Result<(), io::Error> {
        if reactor.refuse {
            return Err(io::Error::new(io::ErrorKind::Other, "refused"));
        }
        reactor.log.borrow_mut().push("deregister listener".to_string());
        Ok(())
    }
}

impl Accept for Listener {
    type Output = Conn;

    fn accept(&self) -> Result<Option<(Conn, SocketAddr)>, Error> {
        self.log.borrow_mut().push("accept".to_string());
        match self.queue.borrow_mut().pop_front() {
            Some(Pending::Peer(port)) => Ok(Some((Conn { log: self.log.clone(), port }, addr(port)))),
            Some(Pending::Failure) => Err(Error::Io(io::Error::new(io::ErrorKind::Other, "accept"))),
            None => Ok(None),
        }
    }
}

/// Reads and answers once, then removes itself.
struct Echo {
    port: u16,
}

impl TransportHandler<Conn> for Echo {
    type Seed = u16;

    fn create(seed: u16, sock: &mut Conn, _notifier: rotor::Notifier) -> Next<Self> {
        sock.log.borrow_mut().push(format!("create handler {}", seed));
        Next::read(Echo { port: seed })
    }
    fn readable(self, sock: &mut Conn) -> Next<Self> {
        sock.log.borrow_mut().push(format!("readable {}", self.port));
        Next::write(self)
    }
    fn writable(self, sock: &mut Conn) -> Next<Self> {
        sock.log.borrow_mut().push(format!("writable {}", self.port));
        Next::remove()
    }
    fn wakeup(self) -> Next<Self> {
        Next::wait(self)
    }
    fn remove(sock: Conn) {
        sock.log.borrow_mut().push(format!("remove {}", sock.port));
    }
}

/// Takes every peer but those on the ports it was told to decline.
struct Door {
    declined: Vec<u16>,
    seen: Log,
}

impl AcceptHandler<Conn> for Door {
    type Output = Echo;

    fn accept(&mut self, addr: &SocketAddr) -> Option<u16> {
        let port = match *addr {
            SocketAddr::V4(_, port) => port,
            SocketAddr::V6(_, port, _, _) => port,
        };
        self.seen.borrow_mut().push(format!("offered {}", port));
        if self.declined.contains(&port) {
            None
        } else {
            Some(port)
        }
    }
}

type Server = ServerMachine<Listener, Door>;
type Seed = (Conn, u16);

fn listener(log: &Log, scope: &mut Scope<Reactor>, queue: Vec<Pending>, declined: Vec<u16>) -> Server {
    let door = Door { declined, seen: log.clone() };
    let (res, _trigger) = ServerMachine::new(Listener::new(log, queue), door, scope);
    match res {
        Response::Normal(m) => m,
        _ => panic!("no listener"),
    }
}

/// Drives a listener as the reactor does after one readiness event: as long
/// as the listener asks to spawn, the machine is created and `spawned` is
/// called. Returns the listener and the machines that were spawned.
fn tick(server: Server, scope: &mut Scope<Reactor>) -> (Server, Vec<Server>) {
    let mut spawned = Vec::new();
    let mut res = server.ready(Events::readable(), scope);
    loop {
        match res {
            Response::Spawn(m, seed) => {
                match <Server as Machine<Reactor>>::create(seed, scope) {
                    Response::Normal(conn) => spawned.push(conn),
                    _ => panic!("the connection was not created"),
                }
                res = m.spawned(scope);
            }
            Response::Normal(m) => return (m, spawned),
            _ => panic!("the listener is gone"),
        }
    }
}

#[test]
fn new_registers_for_readability() {
    let log: Log = Rc::new(RefCell::new(Vec::new()));
    let mut scope = scope(&log);
    let _server = listener(&log, &mut scope, vec![], vec![]);
    assert_eq!(entries(&log), vec!["register listener readable=true writable=false"]);
}

#[test]
fn new_fails_where_the_reactor_refuses() {
    let log: Log = Rc::new(RefCell::new(Vec::new()));
    let mut scope = scope(&log);
    scope.reactor.refuse = true;
    let door = Door { declined: vec![], seen: log.clone() };
    let (res, _trigger): (Response<Server, rotor::Void>, _) =
        ServerMachine::new(Listener::new(&log, vec![]), door, &mut scope);
    assert!(matches!(res, Response::Error(Error::Io(_))));
}

#[test]
fn three_accepts_spawn_three_connections() {
    let log: Log = Rc::new(RefCell::new(Vec::new()));
    let mut scope = scope(&log);
    let queue = vec![Pending::Peer(1), Pending::Peer(2), Pending::Peer(3)];
    let server = listener(&log, &mut scope, queue, vec![]);
    let (server, spawned) = tick(server, &mut scope);
    assert_eq!(spawned.len(), 3);
    assert_eq!(
        entries(&log),
        vec![
            "register listener readable=true writable=false",
            "accept",
            "offered 1",
            "create handler 1",
            "register conn 1 readable=true",
            "accept",
            "offered 2",
            "create handler 2",
            "register conn 2 readable=true",
            "accept",
            "offered 3",
            "create handler 3",
            "register conn 3 readable=true",
            "accept",
        ]
    );
    // The listener still listens: a later accept finds nothing and spawns
    // nothing.
    log.borrow_mut().clear();
    let (_server, spawned) = tick(server, &mut scope);
    assert_eq!(spawned.len(), 0);
    assert_eq!(entries(&log), vec!["accept"]);
}

#[test]
fn spawned_connections_run_on_their_own() {
    let log: Log = Rc::new(RefCell::new(Vec::new()));
    let mut scope = scope(&log);
    let queue = vec![Pending::Peer(1), Pending::Peer(2), Pending::Peer(3)];
    let server = listener(&log, &mut scope, queue, vec![]);
    let (_server, spawned) = tick(server, &mut scope);
    log.borrow_mut().clear();
    let mut spawned = spawned.into_iter();
    let first = spawned.next().unwrap();
    let second = spawned.next().unwrap();
    let first = match first.ready(Events::readable(), &mut scope) {
        Response::Normal(m) => m,
        _ => panic!("the connection is gone"),
    };
    let res = first.ready(Events::writable(), &mut scope);
    assert!(matches!(res, Response::Done));
    let _second = match second.ready(Events::readable(), &mut scope) {
        Response::Normal(m) => m,
        _ => panic!("the connection is gone"),
    };
    assert_eq!(
        entries(&log),
        vec![
            "readable 1",
            "reregister conn 1",
            "writable 1",
            "deregister conn 1",
            "remove 1",
            "readable 2",
            "reregister conn 2",
        ]
    );
}

#[test]
fn declined_connection_spawns_nothing() {
    let log: Log = Rc::new(RefCell::new(Vec::new()));
    let mut scope = scope(&log);
    let queue = vec![Pending::Peer(1), Pending::Peer(2), Pending::Peer(9), Pending::Peer(3)];
    let server = listener(&log, &mut scope, queue, vec![9]);
    // The declined connection ends the callback; the reactor reports the
    // listener readable again as long as connections wait.
    let (server, first) = tick(server, &mut scope);
    let (server, second) = tick(server, &mut scope);
    let (_server, third) = tick(server, &mut scope);
    assert_eq!(first.len(), 2);
    assert_eq!(second.len(), 1);
    assert_eq!(third.len(), 0);
    let offered: Vec<String> =
        entries(&log).into_iter().filter(|line| line.starts_with("offered")).collect();
    assert_eq!(offered, vec!["offered 1", "offered 2", "offered 9", "offered 3"]);
    let created: Vec<String> =
        entries(&log).into_iter().filter(|line| line.starts_with("create handler")).collect();
    assert_eq!(created, vec!["create handler 1", "create handler 2", "create handler 3"]);
}

#[test]
fn failed_accept_does_not_end_the_listener() {
    let log: Log = Rc::new(RefCell::new(Vec::new()));
    let mut scope = scope(&log);
    let queue = vec![Pending::Failure, Pending::Peer(4)];
    let server = listener(&log, &mut scope, queue, vec![]);
    let (server, spawned) = tick(server, &mut scope);
    assert_eq!(spawned.len(), 0);
    let (_server, spawned) = tick(server, &mut scope);
    assert_eq!(spawned.len(), 1);
}

#[test]
fn raised_trigger_ends_the_listener() {
    let log: Log = Rc::new(RefCell::new(Vec::new()));
    let mut scope = scope(&log);
    let door = Door { declined: vec![], seen: log.clone() };
    let queue = vec![Pending::Peer(1)];
    let (res, trigger) = ServerMachine::new(Listener::new(&log, queue), door, &mut scope);
    let server: Server = match res {
        Response::Normal(m) => m,
        _ => panic!("no listener"),
    };
    // A wakeup without the trigger lets the listener accept.
    let server = match server.wakeup(&mut scope) {
        Response::Spawn(m, _seed) => m,
        _ => panic!("nothing was accepted"),
    };
    // The reactor of this test is gone, so the wakeup cannot be delivered;
    // the flag is raised all the same.
    let _ = trigger.trigger();
    log.borrow_mut().clear();
    let res: Response<Server, Seed> = server.wakeup(&mut scope);
    assert!(matches!(res, Response::Done));
    assert_eq!(entries(&log), vec!["deregister listener"]);
}

#[test]
fn raised_trigger_ends_the_listener_on_readiness_too() {
    let log: Log = Rc::new(RefCell::new(Vec::new()));
    let mut scope = scope(&log);
    let door = Door { declined: vec![], seen: log.clone() };
    let queue = vec![Pending::Peer(1)];
    let (res, trigger) = ServerMachine::new(Listener::new(&log, queue), door, &mut scope);
    let server: Server = match res {
        Response::Normal(m) => m,
        _ => panic!("no listener"),
    };
    let _ = trigger.clone().trigger();
    log.borrow_mut().clear();
    let res: Response<Server, Seed> = server.ready(Events::readable(), &mut scope);
    assert!(matches!(res, Response::Done));
    assert_eq!(entries(&log), vec!["deregister listener"]);
}

#[test]
fn listener_ignores_a_timeout() {
    let log: Log = Rc::new(RefCell::new(Vec::new()));
    let mut scope = scope(&log);
    let server = listener(&log, &mut scope, vec![Pending::Peer(1)], vec![]);
    log.borrow_mut().clear();
    let res: Response<Server, Seed> = server.timeout(&mut scope);
    assert!(matches!(res, Response::Normal(_)));
    assert!(entries(&log).is_empty());
}

#[test]
fn connection_handles_timeout_and_wakeup() {
    let log: Log = Rc::new(RefCell::new(Vec::new()));
    let mut scope = scope(&log);
    let queue = vec![Pending::Peer(1), Pending::Peer(2)];
    let server = listener(&log, &mut scope, queue, vec![]);
    let (_server, spawned) = tick(server, &mut scope);
    log.borrow_mut().clear();
    let mut spawned = spawned.into_iter();
    // The handler keeps the default answer to errors: it is removed.
    let res = spawned.next().unwrap().timeout(&mut scope);
    assert!(matches!(res, Response::Done));
    let res = spawned.next().unwrap().wakeup(&mut scope);
    assert!(matches!(res, Response::Normal(_)));
    assert_eq!(
        entries(&log),
        vec!["deregister conn 1", "remove 1", "reregister conn 2"]
    );
}
