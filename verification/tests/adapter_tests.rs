use grass::blockchain::{
    block_from_rpc, block_number_from_rpc, quantity, quantity_text, sent_transaction_hash,
    transaction_from_rpc, GrassEthHttpProvider, GrassEthStream,
};
use grass::error::GrassError;
use grass::flow::{GrassMakeComAdapter, GrassN8nAdapter};
use grass::inference::{GrassInferenceBackend, GrassTensor, GrassTensorRtBackend};
use grass::integrations::{ipfs_entries, GrassFissAdapter, GrassIpfsLink, GrassIpfsStore, GrassOndcAdapter};
use grass::iot::{GrassModbusClient, GrassModbusFunction, GrassModbusTcpClient, GrassMqttBroker, GrassMqttClient};
use grass::ipc::{GrassIpcTransport, GrassShmTransport, GrassValkeyTransport, GrassZeroMqTransport};
use grass::messaging::{
    GrassKafkaConsumer, GrassKafkaConsumerImpl, GrassKafkaProducer, GrassKafkaProducerImpl,
    GrassQmqpAdapter, GrassQmqpClient, GrassQmqpMessage,
};
use grass::sandbox::{GrassContainerStatus, GrassDockerSandbox, GrassSandboxBackend, GrassWasmConfig, GrassWasmSandbox};
use grass::streaming::{GrassRtcPeer, GrassRtcState, GrassRtspClient, GrassRtspStream, GrassWebRtcPeer};
use grass::text_map::GrassStringMap;
use grass::types::GrassSandboxConfig;
use grass::vector::{present_strings, GrassChromaDb};

#[test]
fn test_shm_transport() {
    let mut transport = GrassShmTransport::new();
    transport.connect("").unwrap();
    transport.write_segment("seg1", b"hello").unwrap();
    let val = transport.read_segment("seg1").unwrap();
    assert_eq!(val, Some(b"hello".to_vec()));
}

#[test]
fn shm_send_and_receive() {
    let mut transport = GrassShmTransport::new();
    assert_eq!(transport.receive().unwrap(), Vec::<u8>::new());
    transport.send(b"one").unwrap();
    assert_eq!(transport.receive().unwrap(), b"one".to_vec());
    transport.write_segment("seg1", b"a").unwrap();
    transport.write_segment("seg1", b"b").unwrap();
    assert_eq!(transport.read_segment("seg1").unwrap(), Some(b"b".to_vec()));
    assert_eq!(transport.read_segment("nope").unwrap(), None);
}

#[test]
fn test_valkey_transport() {
    let mut transport = GrassValkeyTransport::new("redis://localhost:6379");
    transport.connect("").unwrap();
    transport.set("key1", b"value1").unwrap();
    let val = transport.get("key1").unwrap();
    assert_eq!(val, Some(b"value1".to_vec()));
    transport.del("key1").unwrap();
    assert!(transport.get("key1").unwrap().is_none());
}

#[test]
fn valkey_send_needs_a_connection() {
    let mut transport = GrassValkeyTransport::new("redis://h");
    assert_eq!(transport.send(b"x"), Err(GrassError::Ipc("not connected".to_string())));
    transport.connect("").unwrap();
    transport.send(b"x").unwrap();
    assert_eq!(transport.receive().unwrap(), b"x".to_vec());
}

#[test]
fn test_zmq_transport_lifecycle() {
    let mut transport = GrassZeroMqTransport::new();
    transport.connect("ipc:///tmp/test.sock").unwrap();
    assert!(transport.connected());
    transport.send(b"hello").unwrap();
    transport.disconnect().unwrap();
    assert!(!transport.connected());
}

#[test]
fn zmq_refuses_traffic_when_disconnected() {
    let mut transport = GrassZeroMqTransport::new();
    assert_eq!(transport.send(b"x"), Err(GrassError::Ipc("not connected".to_string())));
    assert_eq!(transport.receive(), Err(GrassError::Ipc("not connected".to_string())));
    transport.connect("tcp://h:1").unwrap();
    assert_eq!(transport.endpoint(), Some("tcp://h:1"));
    assert_eq!(transport.receive(), Ok(vec![]));
}

#[test]
fn test_modbus_function_serialization() {
    let func = GrassModbusFunction::ReadHoldingRegisters;
    assert!(func.name().contains("ReadHoldingRegisters"));
}

#[test]
fn modbus_client_reads_zeros() {
    let mut c = GrassModbusClient::new();
    assert_eq!(c.port(), 502);
    c.connect("plc", 1502).unwrap();
    assert!(c.connected());
    assert_eq!(c.read_register(1, 2, GrassModbusFunction::ReadCoils), Ok(0));
    assert_eq!(c.read_registers(1, 0, 3), Ok(vec![0, 0, 0]));
    c.write_register(1, 2, 3).unwrap();
    c.disconnect().unwrap();
    assert!(!c.connected());
}

#[test]
fn test_mqtt_lifecycle() {
    let mut client = GrassMqttBroker::new("test-client");
    client.connect("localhost", 1883).unwrap();
    assert!(client.connected());
    client.subscribe("test/topic").unwrap();
    client.publish("test/topic", b"hello").unwrap();
    client.disconnect().unwrap();
    assert!(!client.connected());
}

#[test]
fn test_kafka_producer() {
    let producer = GrassKafkaProducerImpl::new("localhost:9092");
    producer.produce("test", Some("key"), b"hello").unwrap();
    producer.flush().unwrap();
}

#[test]
fn test_kafka_consumer() {
    let consumer = GrassKafkaConsumerImpl::new("localhost:9092", "test-group");
    consumer.subscribe(&["test"]).unwrap();
    let msg = consumer.poll(100).unwrap();
    assert!(msg.is_none());
    assert_eq!(consumer.group_id(), "test-group");
}

#[test]
fn test_qmqp_message() {
    let msg = GrassQmqpMessage {
        sender: "agent@grass.ai".into(),
        recipients: vec!["user@example.com".into()],
        body: b"hello".to_vec(),
        attributes: GrassStringMap::new(),
    };
    assert_eq!(msg.recipients.len(), 1);
    let mut client = GrassQmqpAdapter::new();
    client.connect("mail", 628).unwrap();
    assert!(client.connected());
    client.send(&msg).unwrap();
    assert!(client.receive().unwrap().is_none());
}

#[test]
fn test_rtsp_lifecycle() {
    let mut stream = GrassRtspStream::new();
    stream.connect("rtsp://camera.local/stream").unwrap();
    assert!(stream.connected());
    assert!(stream.get_frame().unwrap().is_empty());
    stream.disconnect().unwrap();
    assert!(!stream.connected());
}

#[test]
fn test_webrtc_peer() {
    let mut peer = GrassWebRtcPeer::new();
    assert!(matches!(peer.state(), GrassRtcState::New));
    let offer = peer.create_offer().unwrap();
    assert!(offer.contains("v=0"));
    peer.set_remote_description(&offer).unwrap();
    assert!(matches!(peer.state(), GrassRtcState::Connected));
    peer.close().unwrap();
    assert_eq!(peer.state(), GrassRtcState::Disconnected);
}

#[test]
fn test_tensorrt_infer() {
    let mut backend = GrassTensorRtBackend::new();
    backend.load_model("/tmp/model.engine").unwrap();
    let input = GrassTensor {
        data: vec![0.0f32; 3 * 224 * 224],
        shape: vec![1, 3, 224, 224],
    };
    let output = backend.infer(&input).unwrap();
    assert_eq!(output.shape, vec![1, 3, 224, 224]);
}

#[test]
fn tensorrt_needs_a_model() {
    let backend = GrassTensorRtBackend::new();
    let input = GrassTensor { data: vec![1u8], shape: vec![1] };
    assert_eq!(
        backend.infer(&input).err(),
        Some(GrassError::Inference("no model loaded".to_string()))
    );
    assert_eq!(backend.input_shape(), vec![1, 3, 224, 224]);
    assert_eq!(backend.output_shape(), vec![1, 1000]);
    assert_eq!(backend.name(), "tensorrt");
}

#[test]
fn test_eth_provider_name() {
    let provider = GrassEthHttpProvider::new("http://localhost:8545");
    assert_eq!(provider.rpc_url(), "http://localhost:8545");
}

#[test]
fn test_eth_stream_name() {
    let stream = GrassEthStream::new("ethereum");
    assert_eq!(stream.chain_name(), "ethereum");
}

#[test]
fn eth_quantities_parse_like_from_str_radix() {
    assert_eq!(quantity("0x1f"), 31);
    assert_eq!(quantity("0x0x1F"), 31);
    assert_eq!(quantity("ff"), 255);
    assert_eq!(quantity("0x+a"), 10);
    assert_eq!(quantity("0x"), 0);
    assert_eq!(quantity("0xzz"), 0);
    assert_eq!(quantity("0x-1"), 0);
    assert_eq!(quantity("0xffffffffffffffff"), u64::MAX);
    assert_eq!(quantity("0x10000000000000000"), 0);
    for n in [0u64, 9, 10, 255, 4096, u64::MAX] {
        assert_eq!(quantity_text(n), format!("0x{:x}", n));
        assert_eq!(quantity(&quantity_text(n)), n);
    }
}

#[test]
fn eth_rpc_results_fill_blocks_and_transactions() {
    assert_eq!(block_number_from_rpc(Some("0x10")), 16);
    assert_eq!(block_number_from_rpc(None), 0);
    let b = block_from_rpc(7, Some("0xabc"), None, Some("0x5"));
    assert_eq!((b.number, b.hash.as_str(), b.parent_hash.as_str(), b.timestamp), (7, "0xabc", "", 5));
    assert!(b.transactions.is_empty());
    let t = transaction_from_rpc("0xh", Some("0xf"), None, None, Some("0x"));
    assert_eq!(t.value, "0x0");
    assert!(t.to.is_none());
    assert_eq!(t.gas, 0);
    assert_eq!(sent_transaction_hash(None), "");
    let mut s = GrassEthStream::new("eth");
    s.connect("wss://x").unwrap();
    assert!(s.connected());
    s.subscribe_events("0xc").unwrap();
    s.disconnect().unwrap();
    assert!(!s.connected());
}

#[test]
fn test_container_status_variants() {
    let statuses = vec![
        GrassContainerStatus::Created,
        GrassContainerStatus::Running,
        GrassContainerStatus::Stopped,
        GrassContainerStatus::Unknown,
    ];
    assert_eq!(statuses.len(), 4);
    assert_ne!(GrassContainerStatus::Running, GrassContainerStatus::Stopped);
}

#[test]
fn test_wasm_sandbox_config_default() {
    let cfg = GrassWasmConfig::default();
    assert_eq!(cfg.max_memory_pages, 256);
    assert_eq!(cfg.fuel_limit, 1_000_000);
    assert!(cfg.enable_simd);
}

#[test]
fn wasm_sandbox_lifecycle() {
    let sb = GrassWasmSandbox::new(GrassWasmConfig::default());
    let id = sb.create(&GrassSandboxConfig::default()).unwrap();
    assert_eq!(id.len(), 36);
    sb.start(&id).unwrap();
    assert_eq!(sb.exec(&id, "ls").unwrap(), "");
    assert_eq!(sb.status(&id), Ok(GrassContainerStatus::Running));
    sb.stop(&id).unwrap();
    sb.destroy(&id).unwrap();
    assert_eq!(sb.name(), "wasm");
    assert_eq!(sb.config().fuel_limit, 1_000_000);
}

#[test]
fn test_docker_sandbox_name() {
    let sandbox = GrassDockerSandbox::new("/var/run/docker.sock");
    assert_eq!(sandbox.name(), "docker");
}

#[test]
fn docker_requests() {
    let d = GrassDockerSandbox::new("/var/run/docker.sock");
    assert_eq!(d.start_url("c1"), "http://localhost/v1.43/containers/c1/start");
    assert_eq!(d.container_url("c1"), "http://localhost/v1.43/containers/c1");
    let mut cfg = GrassSandboxConfig::default();
    assert_eq!(d.network_mode(&cfg), "none");
    cfg.network_isolation = false;
    assert_eq!(d.network_mode(&cfg), "bridge");
    cfg.env_vars.insert("A".into(), "1".into());
    cfg.env_vars.insert("B".into(), "x=y".into());
    assert_eq!(d.environment(&cfg), vec!["A=1".to_string(), "B=x=y".to_string()]);
    assert_eq!(d.memory_limit(&cfg), 512 * 1024 * 1024);
    assert_eq!(d.command_words("  ls\t-la  /tmp \n"), vec!["ls", "-la", "/tmp"]);
    assert!(d.command_words(" \u{3000} ").is_empty());
    assert_eq!(d.status_from_state(Some("running")), GrassContainerStatus::Running);
    assert_eq!(d.status_from_state(Some("exited")), GrassContainerStatus::Stopped);
    assert_eq!(d.status_from_state(Some("stopped")), GrassContainerStatus::Stopped);
    assert_eq!(d.status_from_state(Some("created")), GrassContainerStatus::Created);
    assert_eq!(d.status_from_state(Some("paused")), GrassContainerStatus::Unknown);
    assert_eq!(d.status_from_state(None), GrassContainerStatus::Unknown);
}

#[test]
fn test_fiss_adapter() {
    let adapter = GrassFissAdapter::new("https://fiss.example.com");
    assert_eq!(adapter.endpoint(), "https://fiss.example.com");
    assert_eq!(adapter.query_url("d"), "https://fiss.example.com/query/d");
}

#[test]
fn test_ipfs_store() {
    let store = GrassIpfsStore::new("http://localhost:5001");
    assert_eq!(store.api_url(), "http://localhost:5001");
    assert_eq!(store.cat_url("Qm1"), "http://localhost:5001/api/v0/cat?arg=Qm1");
}

#[test]
fn ipfs_listing_defaults_missing_fields() {
    let entries = ipfs_entries(Some(vec![
        GrassIpfsLink { name: Some("a".into()), hash: Some("Qa".into()), size: Some(3) },
        GrassIpfsLink { name: None, hash: None, size: None },
    ]));
    assert_eq!(entries.len(), 2);
    assert_eq!((entries[0].name.as_str(), entries[0].cid.as_str(), entries[0].size), ("a", "Qa", 3));
    assert_eq!((entries[1].name.as_str(), entries[1].cid.as_str(), entries[1].size), ("", "", 0));
    assert!(ipfs_entries(None).is_empty());
}

#[test]
fn test_ondc_adapter() {
    let adapter = GrassOndcAdapter::new("https://gateway.ondc.org", "key123");
    assert_eq!(adapter.gateway_url(), "https://gateway.ondc.org");
    let r = adapter.confirm("o1");
    assert_eq!(r.status, "confirmed");
    assert_eq!(r.order_id, Some("o1".to_string()));
    assert_eq!(adapter.search("q", "l").status, "search_initiated");
}

#[test]
fn test_makecom_adapter() {
    let adapter = GrassMakeComAdapter::new("https://hook.make.com/abc123");
    assert_eq!(adapter.webhook_url(), "https://hook.make.com/abc123");
}

#[test]
fn test_n8n_adapter() {
    let adapter = GrassN8nAdapter::new("https://n8n.example.com", "key123");
    assert_eq!(adapter.base_url(), "https://n8n.example.com");
    assert_eq!(adapter.activate_url("w1"), "https://n8n.example.com/api/v1/workflows/w1/activate");
}

#[test]
fn chroma_query_keeps_the_strings() {
    let db = GrassChromaDb::new("http://chroma");
    assert_eq!(db.collection_url("docs", "query"), "http://chroma/api/v1/collections/docs/query");
    assert_eq!(
        present_strings(Some(vec![Some("a".into()), None, Some("b".into())])),
        vec!["a".to_string(), "b".to_string()]
    );
    assert!(present_strings(None).is_empty());
}
