use palantir_agent::config::defs::{Config, ListenerType, ReporterConfig, TCPConfig, UDPConfig};
use palantir_agent::config::validator::{run_validation_chain, LogicError};

#[test]
fn test_no_listeners_invalid() {
    let config = Config {
        listeners: vec![],
        reporter: ReporterConfig {
            vm_import_url: "".to_string(),
        },
    };

    let result = run_validation_chain(&config).err().unwrap();

    match result {
        LogicError::PortUsedTwice(_) => {
            panic!("wrong error")
        }
        LogicError::AtLeastOneListener => (),
    }
}

#[test]
fn test_port_used_twice() {
    let config = Config {
        listeners: vec![
            ListenerType::UDP(UDPConfig {
                port: 2746,
                buffer_size: 4096,
            }),
            ListenerType::TCP(TCPConfig {
                port: 2746,
                buffer_size: 4096,
            }),
        ],
        reporter: ReporterConfig {
            vm_import_url: "".to_string(),
        },
    };

    let result = run_validation_chain(&config).err().unwrap();

    match result {
        LogicError::PortUsedTwice(port) => {
            assert_eq!(port, 2746)
        }
        LogicError::AtLeastOneListener => {
            panic!("wrong error")
        }
    }
}

#[test]
fn test_ok() {
    let config = Config {
        listeners: vec![
            ListenerType::UDP(UDPConfig {
                port: 2746,
                buffer_size: 4096,
            }),
            ListenerType::TCP(TCPConfig {
                port: 2747,
                buffer_size: 4096,
            }),
        ],
        reporter: ReporterConfig {
            vm_import_url: "".to_string(),
        },
    };

    let _result = run_validation_chain(&config).ok().unwrap();
}

#[test]
fn test_first_duplicate_reported() {
    let config = Config {
        listeners: vec![
            ListenerType::UDP(UDPConfig {
                port: 10,
                buffer_size: 4096,
            }),
            ListenerType::UDP(UDPConfig {
                port: 20,
                buffer_size: 4096,
            }),
            ListenerType::TCP(TCPConfig {
                port: 20,
                buffer_size: 4096,
            }),
            ListenerType::TCP(TCPConfig {
                port: 10,
                buffer_size: 4096,
            }),
        ],
        reporter: ReporterConfig {
            vm_import_url: "".to_string(),
        },
    };

    let result = run_validation_chain(&config).err().unwrap();

    match result {
        LogicError::PortUsedTwice(port) => assert_eq!(port, 20),
        LogicError::AtLeastOneListener => panic!("wrong error"),
    }
}
