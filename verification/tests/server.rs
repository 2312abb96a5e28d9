use media_bridge::server::{Config, Server, ServerTask, StartupFault};

fn config(port: u16) -> Config {
    Config { ip: String::from("127.0.0.1"), port }
}

#[test]
fn control_port_is_the_one_after_the_site_port() {
    assert_eq!(config(3000).control_port(), Ok(3001));
    assert_eq!(config(0).control_port(), Ok(1));
    assert_eq!(config(65534).control_port(), Ok(65535));
}

#[test]
fn last_port_leaves_no_control_port() {
    assert_eq!(config(65535).control_port(), Err(StartupFault::NoControlPort));
    assert_eq!(config(65535).control_endpoint(), Err(StartupFault::NoControlPort));
}

#[test]
fn endpoints_are_host_colon_port() {
    assert_eq!(config(3000).site_endpoint(), "127.0.0.1:3000");
    assert_eq!(config(3000).control_endpoint(), Ok(String::from("127.0.0.1:3001")));
    assert_eq!(config(0).site_endpoint(), "127.0.0.1:0");
    assert_eq!(config(9).control_endpoint(), Ok(String::from("127.0.0.1:10")));
    assert_eq!(config(65535).site_endpoint(), "127.0.0.1:65535");
}

#[test]
fn new_server_is_stopped_and_admits_nobody() {
    let mut server = Server::new();
    assert!(!server.is_running());
    assert_eq!(server.live_connections(), 0);
    assert_eq!(server.accept(), None);
    assert_eq!(server.stop(), Vec::<u64>::new());
}

#[test]
fn server_runs_once_its_sockets_are_bound() {
    let mut server = Server::new();
    assert_eq!(server.start(Ok(())), Ok(()));
    assert!(server.is_running());
    assert_eq!(server.start(Ok(())), Ok(()));
    assert!(server.is_running());
    server.stop();
    assert!(!server.is_running());
    assert_eq!(server.start(Ok(())), Ok(()));
    assert!(server.is_running());
}

#[test]
fn failed_bind_leaves_the_server_as_it_was() {
    let mut server = Server::new();
    assert_eq!(server.start(Err(StartupFault::BindFailed)), Err(StartupFault::BindFailed));
    assert!(!server.is_running());
    assert_eq!(server.accept(), None);
    assert_eq!(server.start(Err(StartupFault::NoControlPort)), Err(StartupFault::NoControlPort));
    assert!(!server.is_running());

    assert_eq!(server.start(Ok(())), Ok(()));
    assert_eq!(server.accept(), Some(0));
    assert_eq!(server.start(Err(StartupFault::BindFailed)), Err(StartupFault::BindFailed));
    assert!(server.is_running());
    assert!(server.is_live(0));
}

#[test]
fn running_server_gives_each_connection_its_own_identifier() {
    let mut server = Server::new();
    server.start(Ok(())).unwrap();
    assert_eq!(server.accept(), Some(0));
    assert_eq!(server.accept(), Some(1));
    assert_eq!(server.accept(), Some(2));
    assert_eq!(server.live_connections(), 3);
    assert!(server.is_live(1));
    assert!(!server.is_live(3));
}

#[test]
fn closed_connection_leaves_the_registry() {
    let mut server = Server::new();
    server.start(Ok(())).unwrap();
    server.accept();
    server.accept();
    server.accept();
    assert!(server.connection_closed(1));
    assert!(!server.connection_closed(1));
    assert!(!server.connection_closed(7));
    assert_eq!(server.live_connections(), 2);
    assert!(server.is_live(0));
    assert!(!server.is_live(1));
    assert!(server.is_live(2));
    assert_eq!(server.accept(), Some(3));
}

#[test]
fn stop_cancels_every_live_connection() {
    let mut server = Server::new();
    server.start(Ok(())).unwrap();
    server.accept();
    server.accept();
    server.accept();
    server.connection_closed(0);
    assert_eq!(server.stop(), vec![1, 2]);
    assert!(!server.is_running());
    assert_eq!(server.live_connections(), 0);
    assert_eq!(server.accept(), None);
    assert_eq!(server.stop(), Vec::<u64>::new());
}

#[test]
fn identifiers_are_not_reused_after_a_restart() {
    let mut server = Server::new();
    server.start(Ok(())).unwrap();
    assert_eq!(server.accept(), Some(0));
    server.stop();
    server.start(Ok(())).unwrap();
    assert_eq!(server.accept(), Some(1));
}

#[test]
fn end_of_one_task_stops_the_other_and_every_connection() {
    let mut server = Server::new();
    server.start(Ok(())).unwrap();
    server.accept();
    server.accept();
    let shutdown = server.task_exited(ServerTask::SiteServer);
    assert_eq!(shutdown.task, Some(ServerTask::AcceptLoop));
    assert_eq!(shutdown.connections, vec![0, 1]);
    assert!(!server.is_running());
    let again = server.task_exited(ServerTask::AcceptLoop);
    assert_eq!(again.task, None);
    assert_eq!(again.connections, Vec::<u64>::new());

    server.start(Ok(())).unwrap();
    let shutdown = server.task_exited(ServerTask::AcceptLoop);
    assert_eq!(shutdown.task, Some(ServerTask::SiteServer));
    assert_eq!(ServerTask::SiteServer.other(), ServerTask::AcceptLoop);
}
