//! Device clients: Modbus TCP and MQTT. Both keep only whether they are
//! connected; reads answer zeros.
use vstd::prelude::*;
use crate::error::GrassError;

verus! {

/// The Modbus function codes.
#[derive(Debug, Clone, Copy, PartialEq, Eq, Structural)]
pub enum GrassModbusFunction {
    ReadCoils,
    ReadHoldingRegisters,
    ReadInputRegisters,
    WriteSingleCoil,
    WriteSingleRegister,
    WriteMultipleCoils,
    WriteMultipleRegisters,
}

impl GrassModbusFunction {
    /// The function's name, as `{:?}` and serde write it.
    pub fn name(&self) -> (r: &'static str)
        ensures
            r@ == modbus_function_name(*self),
    {
        match self {
            GrassModbusFunction::ReadCoils => "ReadCoils",
            GrassModbusFunction::ReadHoldingRegisters => "ReadHoldingRegisters",
            GrassModbusFunction::ReadInputRegisters => "ReadInputRegisters",
            GrassModbusFunction::WriteSingleCoil => "WriteSingleCoil",
            GrassModbusFunction::WriteSingleRegister => "WriteSingleRegister",
            GrassModbusFunction::WriteMultipleCoils => "WriteMultipleCoils",
            GrassModbusFunction::WriteMultipleRegisters => "WriteMultipleRegisters",
        }
    }
}

/// The name of a Modbus function.
pub open spec fn modbus_function_name(f: GrassModbusFunction) -> Seq<char> {
    match f {
        GrassModbusFunction::ReadCoils => "ReadCoils"@,
        GrassModbusFunction::ReadHoldingRegisters => "ReadHoldingRegisters"@,
        GrassModbusFunction::ReadInputRegisters => "ReadInputRegisters"@,
        GrassModbusFunction::WriteSingleCoil => "WriteSingleCoil"@,
        GrassModbusFunction::WriteSingleRegister => "WriteSingleRegister"@,
        GrassModbusFunction::WriteMultipleCoils => "WriteMultipleCoils"@,
        GrassModbusFunction::WriteMultipleRegisters => "WriteMultipleRegisters"@,
    }
}

/// A Modbus TCP client.
pub trait GrassModbusTcpClient {
    /// Whether the client is connected.
    spec fn is_connected(&self) -> bool;

    /// Connects to `host:port`; this succeeds.
    fn connect(&mut self, host: &str, port: u16) -> (r: Result<(), GrassError>)
        ensures
            final(self).is_connected(),
            r is Ok,
    ;

    /// Reads one register.
    fn read_register(&self, slave_id: u8, address: u16, function: GrassModbusFunction) -> (r:
        Result<u16, GrassError>);

    /// Writes one register.
    fn write_register(&self, slave_id: u8, address: u16, value: u16) -> (r: Result<(), GrassError>);

    /// Reads `count` registers from `address` on.
    fn read_registers(&self, slave_id: u8, address: u16, count: u16) -> (r: Result<
        Vec<u16>,
        GrassError,
    >);

    /// Disconnects; this succeeds.
    fn disconnect(&mut self) -> (r: Result<(), GrassError>)
        ensures
            !final(self).is_connected(),
            r is Ok,
    ;
}

/// A Modbus TCP client: its host and port, and whether it is connected.
pub struct GrassModbusClient {
    host: String,
    port: u16,
    connected: bool,
}

/// The Modbus TCP port.
pub open spec fn modbus_port() -> u16 {
    502
}

impl GrassModbusClient {
    pub closed spec fn host_text(&self) -> Seq<char> {
        self.host@
    }

    pub closed spec fn port_number(&self) -> u16 {
        self.port
    }

    /// A client with no host, on port 502, not connected.
    pub fn new() -> (r: Self)
        ensures
            r.host_text().len() == 0,
            r.port_number() == modbus_port(),
            !r.is_connected(),
    {
        GrassModbusClient { host: String::new(), port: 502, connected: false }
    }

    pub fn host(&self) -> (r: &str)
        ensures
            r@ == self.host_text(),
    {
        self.host.as_str()
    }

    pub fn port(&self) -> (r: u16)
        ensures
            r == self.port_number(),
    {
        self.port
    }

    /// Whether the client is connected.
    pub fn connected(&self) -> (r: bool)
        ensures
            r == self.is_connected(),
    {
        self.connected
    }
}

impl GrassModbusTcpClient for GrassModbusClient {
    closed spec fn is_connected(&self) -> bool {
        self.connected
    }

    /// Marks the client connected; the host and port it holds stay.
    fn connect(&mut self, host: &str, port: u16) -> (r: Result<(), GrassError>)
        ensures
            final(self).host_text() == old(self).host_text(),
            final(self).port_number() == old(self).port_number(),
    {
        self.connected = true;
        Ok(())
    }

    /// Answers zero.
    fn read_register(&self, slave_id: u8, address: u16, function: GrassModbusFunction) -> (r:
        Result<u16, GrassError>)
        ensures
            r == Ok::<u16, GrassError>(0),
    {
        Ok(0)
    }

    /// Accepts the write.
    fn write_register(&self, slave_id: u8, address: u16, value: u16) -> (r: Result<(), GrassError>)
        ensures
            r is Ok,
    {
        Ok(())
    }

    /// Answers `count` zeros.
    fn read_registers(&self, slave_id: u8, address: u16, count: u16) -> (r: Result<
        Vec<u16>,
        GrassError,
    >)
        ensures
            r matches Ok(v) && v@ == Seq::new(count as nat, |i: int| 0u16),
    {
        let mut v: Vec<u16> = Vec::new();
        let mut i: u16 = 0;
        while i < count
            invariant
                i <= count,
                v@ == Seq::new(i as nat, |j: int| 0u16),
            decreases count - i,
        {
            v.push(0);
            i = i + 1;
            assert(v@ =~= Seq::new(i as nat, |j: int| 0u16));
        }
        Ok(v)
    }

    /// Marks the client disconnected.
    fn disconnect(&mut self) -> (r: Result<(), GrassError>)
        ensures
            final(self).host_text() == old(self).host_text(),
            final(self).port_number() == old(self).port_number(),
    {
        self.connected = false;
        Ok(())
    }
}

/// An MQTT client.
pub trait GrassMqttClient {
    /// Whether the client is connected.
    spec fn is_connected(&self) -> bool;

    /// Connects to the broker at `broker:port`; this succeeds.
    fn connect(&mut self, broker: &str, port: u16) -> (r: Result<(), GrassError>)
        ensures
            final(self).is_connected(),
            r is Ok,
    ;

    /// Subscribes to `topic`.
    fn subscribe(&self, topic: &str) -> (r: Result<(), GrassError>);

    /// Publishes `payload` on `topic`.
    fn publish(&self, topic: &str, payload: &[u8]) -> (r: Result<(), GrassError>);

    /// Disconnects; this succeeds.
    fn disconnect(&mut self) -> (r: Result<(), GrassError>)
        ensures
            !final(self).is_connected(),
            r is Ok,
    ;
}

/// An MQTT client with its client id.
pub struct GrassMqttBroker {
    client_id: String,
    connected: bool,
}

impl GrassMqttBroker {
    pub closed spec fn id_text(&self) -> Seq<char> {
        self.client_id@
    }

    /// A client named `client_id`, not connected.
    pub fn new(client_id: &str) -> (r: Self)
        ensures
            r.id_text() == client_id@,
            !r.is_connected(),
    {
        GrassMqttBroker { client_id: client_id.to_owned(), connected: false }
    }

    pub fn client_id(&self) -> (r: &str)
        ensures
            r@ == self.id_text(),
    {
        self.client_id.as_str()
    }

    /// Whether the client is connected.
    pub fn connected(&self) -> (r: bool)
        ensures
            r == self.is_connected(),
    {
        self.connected
    }
}

impl GrassMqttClient for GrassMqttBroker {
    closed spec fn is_connected(&self) -> bool {
        self.connected
    }

    /// Marks the client connected.
    fn connect(&mut self, broker: &str, port: u16) -> (r: Result<(), GrassError>)
        ensures
            final(self).id_text() == old(self).id_text(),
    {
        self.connected = true;
        Ok(())
    }

    /// Accepts the subscription.
    fn subscribe(&self, topic: &str) -> (r: Result<(), GrassError>)
        ensures
            r is Ok,
    {
        Ok(())
    }

    /// Accepts the message.
    fn publish(&self, topic: &str, payload: &[u8]) -> (r: Result<(), GrassError>)
        ensures
            r is Ok,
    {
        Ok(())
    }

    /// Marks the client disconnected.
    fn disconnect(&mut self) -> (r: Result<(), GrassError>)
        ensures
            final(self).id_text() == old(self).id_text(),
    {
        self.connected = false;
        Ok(())
    }
}


impl Default for GrassModbusClient {
    /// A client with no host, on port 502, not connected.
    fn default() -> (r: Self)
        ensures
            r.host_text().len() == 0,
            r.port_number() == modbus_port(),
            !r.is_connected(),
    {
        Self::new()
    }
}

} // verus!
