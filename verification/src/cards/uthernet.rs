//! Uthernet network cards. Uthernet I (CS8900A) is a bank of sixteen plain
//! registers, enough for software to detect it. Uthernet II (WIZnet W5100)
//! is modelled here as its 32 KiB register and buffer space, an indirect
//! address register and four sockets' receive and transmit queues; the
//! host's sockets are driven from outside: a register write that needs the
//! network returns a `NetCommand`, and what the network answers comes back
//! through `connect_done` and `poll_result`.

use vstd::prelude::*;
use crate::card::CardType;

verus! {

/// Mode register.
pub const W5100_MR: u16 = 0x0000;
/// Chip version register (reads 4).
pub const W5100_VERSION: u16 = 0x0019;
/// Receive memory size register.
pub const W5100_RMSR: u16 = 0x001A;
/// Transmit memory size register.
pub const W5100_TMSR: u16 = 0x001B;
/// First socket register; each socket has 0x100 of them.
pub const SOCK_BASE: u16 = 0x0400;
pub const SOCK_SIZE: u16 = 0x0100;
/// Socket register offsets.
pub const SN_MR: u16 = 0x00;
pub const SN_CR: u16 = 0x01;
pub const SN_SR: u16 = 0x03;
pub const SN_PORT: u16 = 0x04;
pub const SN_DIPR: u16 = 0x0C;
pub const SN_DPORT: u16 = 0x10;
pub const SN_TX_FSR: u16 = 0x20;
pub const SN_TX_WR: u16 = 0x24;
pub const SN_RX_RSR: u16 = 0x26;
/// Socket commands.
pub const CMD_OPEN: u8 = 0x01;
pub const CMD_CONNECT: u8 = 0x04;
pub const CMD_CLOSE: u8 = 0x10;
pub const CMD_SEND: u8 = 0x20;
pub const CMD_RECV: u8 = 0x40;
/// Socket modes.
pub const MODE_TCP: u8 = 0x01;
pub const MODE_UDP: u8 = 0x02;
/// Socket states.
pub const SOCK_CLOSED: u8 = 0x00;
pub const SOCK_INIT: u8 = 0x13;
pub const SOCK_ESTABLISHED: u8 = 0x17;
pub const SOCK_CLOSE_WAIT: u8 = 0x1C;
pub const SOCK_UDP: u8 = 0x22;
/// Transmit buffers: 0x4000-0x5FFF; receive buffers: 0x6000-0x7FFF.
pub const TX_BUF_BASE: u16 = 0x4000;
pub const RX_BUF_BASE: u16 = 0x6000;
/// Buffer bytes per socket.
pub const BUF_SIZE_PER_SOCK: u16 = 2048;
/// Size of the register and buffer space.
pub const W5100_SPACE: usize = 0x8000;

/// What the host network must do for the card.
#[derive(Debug)]
pub enum NetCommand {
    /// Bind a non-blocking UDP socket for socket `sock` on `port`.
    OpenUdp { sock: usize, port: u16 },
    /// Connect socket `sock` by TCP to `ip`:`port` (five-second timeout),
    /// then report the outcome with `connect_done`.
    Connect { sock: usize, ip: [u8; 4], port: u16 },
    /// Send `data` on socket `sock`: on its TCP stream, or as a UDP
    /// datagram to `ip`:`port`; nothing when it has no host socket.
    Send { sock: usize, data: Vec<u8>, ip: [u8; 4], port: u16 },
    /// Drop socket `sock`'s host socket.
    Close { sock: usize },
    /// Drop every host socket.
    CloseAll,
}

/// What a poll of a host socket found.
#[derive(Debug)]
pub enum PollResult {
    /// Nothing arrived.
    Nothing,
    /// Bytes arrived.
    Data(Vec<u8>),
    /// The remote end closed the TCP connection.
    Closed,
}

/// Base of socket `sock`'s registers.
pub open spec fn sock_base(sock: int) -> int {
    0x400 + sock * 0x100
}

/// The 16-bit big-endian value at `off`.
pub open spec fn be16(s: Seq<u8>, off: int) -> u16 {
    (s[off] * 256 + s[off + 1]) as u16
}

/// The register space after power-on or a software reset: zero but the
/// version (4) and the two memory-size registers (2 KiB per socket).
pub open spec fn fresh_regs() -> Seq<u8> {
    Seq::new(0x8000, |i: int| if i == 0x19 { 4u8 } else if i == 0x1A || i == 0x1B { 0x55u8 } else { 0u8 })
}

/// The W5100.
pub struct W5100 {
    /// Registers and buffer memory.
    pub regs: Vec<u8>,
    /// Indirect address for the data port.
    pub addr: u16,
    /// Received bytes not yet consumed, per socket.
    pub rx: Vec<Vec<u8>>,
    /// Bytes queued for sending, per socket.
    pub tx: Vec<Vec<u8>>,
}

impl W5100 {
    /// The register space holds 32 KiB and there are four sockets.
    pub open spec fn wf(&self) -> bool {
        &&& self.regs@.len() == 0x8000
        &&& self.rx@.len() == 4
        &&& self.tx@.len() == 4
    }

    /// A chip fresh from reset, no data queued.
    pub fn new() -> (w: Self)
        ensures
            w.wf(),
            w.regs@ == fresh_regs(),
            w.addr == 0,
            forall|s: int| 0 <= s < 4 ==> w.rx@[s]@.len() == 0 && w.tx@[s]@.len() == 0,
    {
        let mut regs: Vec<u8> = Vec::new();
        let mut i: usize = 0;
        while i < W5100_SPACE
            invariant
                i <= W5100_SPACE,
                regs@ == fresh_regs().subrange(0, i as int),
            decreases W5100_SPACE - i,
        {
            let v: u8 = if i == 0x19 { 4 } else if i == 0x1A || i == 0x1B { 0x55 } else { 0 };
            regs.push(v);
            i = i + 1;
            assert(regs@ =~= fresh_regs().subrange(0, i as int));
        }
        assert(regs@ =~= fresh_regs());
        let rx = vec![Vec::new(), Vec::new(), Vec::new(), Vec::new()];
        let tx = vec![Vec::new(), Vec::new(), Vec::new(), Vec::new()];
        W5100 { regs, addr: 0, rx, tx }
    }

    /// Empty socket `sock`'s queues.
    fn close(&mut self, sock: usize)
        requires
            old(self).wf(),
            sock < 4,
        ensures
            final(self).wf(),
            final(self).regs@ == old(self).regs@,
            final(self).addr == old(self).addr,
            final(self).rx@ == old(self).rx@.update(sock as int, final(self).rx@[sock as int]),
            final(self).tx@ == old(self).tx@.update(sock as int, final(self).tx@[sock as int]),
            final(self).rx@[sock as int]@.len() == 0,
            final(self).tx@[sock as int]@.len() == 0,
    {
        self.rx.set(sock, Vec::new());
        self.tx.set(sock, Vec::new());
    }

    /// Software reset: fresh registers, address 0, all queues empty.
    pub fn reset(&mut self)
        requires
            old(self).wf(),
        ensures
            final(self).wf(),
            final(self).regs@ == fresh_regs(),
            final(self).addr == 0,
            forall|s: int| 0 <= s < 4 ==> final(self).rx@[s]@.len() == 0 && final(self).tx@[s]@.len() == 0,
    {
        let mut i: usize = 0;
        while i < W5100_SPACE
            invariant
                i <= W5100_SPACE,
                self.wf(),
                forall|j: int| 0 <= j < i ==> self.regs@[j] == fresh_regs()[j],
            decreases W5100_SPACE - i,
        {
            let v: u8 = if i == 0x19 { 4 } else if i == 0x1A || i == 0x1B { 0x55 } else { 0 };
            self.regs.set(i, v);
            i = i + 1;
        }
        assert(self.regs@ =~= fresh_regs());
        self.addr = 0;
        let mut s: usize = 0;
        while s < 4
            invariant
                s <= 4,
                self.wf(),
                self.regs@ == fresh_regs(),
                self.addr == 0,
                forall|k: int| 0 <= k < s ==> self.rx@[k]@.len() == 0 && self.tx@[k]@.len() == 0,
            decreases 4 - s,
        {
            self.close(s);
            s = s + 1;
        }
    }

    /// Read register `addr` (addresses past the space read 0). Reading a
    /// socket's received-size register first stores the receive queue's
    /// length there (big-endian, modulo 64 Ki), and reading its free-size
    /// register stores 2048.
    pub fn read_reg(&mut self, addr: u16) -> (v: u8)
        requires
            old(self).wf(),
        ensures
            final(self).wf(),
            final(self).addr == old(self).addr,
            final(self).rx@ == old(self).rx@,
            final(self).tx@ == old(self).tx@,
            final(self).regs@ == regs_after_read(old(self).regs@, old(self).rx@, addr),
            v == (if addr >= 0x8000 { 0u8 } else { regs_after_read(old(self).regs@, old(self).rx@, addr)[addr as int] }),
    {
        if addr >= 0x8000 {
            return 0;
        }
        if SOCK_BASE <= addr && addr < SOCK_BASE + 4 * SOCK_SIZE {
            let sock = ((addr - SOCK_BASE) / SOCK_SIZE) as usize;
            let off = (addr - SOCK_BASE) % SOCK_SIZE;
            let base = (SOCK_BASE + sock as u16 * SOCK_SIZE) as usize;
            if off == SN_RX_RSR || off == SN_RX_RSR + 1 {
                let n = self.rx[sock].len();
                let rsr = (n % 0x10000) as u16;
                self.regs.set(base + SN_RX_RSR as usize, (rsr / 256) as u8);
                self.regs.set(base + SN_RX_RSR as usize + 1, (rsr % 256) as u8);
            }
            if off == SN_TX_FSR || off == SN_TX_FSR + 1 {
                self.regs.set(base + SN_TX_FSR as usize, (BUF_SIZE_PER_SOCK / 256) as u8);
                self.regs.set(base + SN_TX_FSR as usize + 1, (BUF_SIZE_PER_SOCK % 256) as u8);
            }
            return self.regs[addr as usize];
        }
        self.regs[addr as usize]
    }

    /// Write register `addr` (addresses past the space are ignored). A
    /// write of the mode register with bit 7 set resets the chip; a write of
    /// a socket's command register runs the command. Returns what the host
    /// network must do.
    pub fn write_reg(&mut self, addr: u16, val: u8) -> (cmd: Option<NetCommand>)
        requires
            old(self).wf(),
        ensures
            final(self).wf(),
            final(self).addr == (if addr == W5100_MR && val >= 0x80 { 0 } else { old(self).addr }),
            addr >= 0x8000 ==> cmd is None && final(self).regs@ == old(self).regs@
                && final(self).rx@ == old(self).rx@ && final(self).tx@ == old(self).tx@,
            addr == W5100_MR && val >= 0x80 ==> (cmd matches Some(NetCommand::CloseAll))
                && final(self).regs@ == fresh_regs(),
            addr < 0x8000 && !(addr == W5100_MR && val >= 0x80) && !(0x400 <= addr < 0x800 && (addr - 0x400)
                % 0x100 == 1) ==> cmd is None && final(self).regs@ == old(self).regs@.update(addr as int, val)
                && final(self).rx@ == old(self).rx@ && final(self).tx@ == old(self).tx@,
            0x400 <= addr < 0x800 && (addr - 0x400) % 0x100 == 1 ==> socket_command(
                *old(self),
                old(self).regs@.update(addr as int, val),
                ((addr - 0x400) / 0x100) as int,
                val,
                *final(self),
                cmd,
            ),
    {
        if addr >= 0x8000 {
            return None;
        }
        if addr == W5100_MR && val >= 0x80 {
            self.reset();
            return Some(NetCommand::CloseAll);
        }
        self.regs.set(addr as usize, val);
        if SOCK_BASE <= addr && addr < SOCK_BASE + 4 * SOCK_SIZE {
            let sock = ((addr - SOCK_BASE) / SOCK_SIZE) as usize;
            let off = (addr - SOCK_BASE) % SOCK_SIZE;
            if off == SN_CR {
                return self.execute_socket_cmd(sock, val);
            }
        }
        None
    }

    /// Run socket command `cmd` of socket `sock` and clear the command
    /// register.
    fn execute_socket_cmd(&mut self, sock: usize, cmd: u8) -> (r: Option<NetCommand>)
        requires
            old(self).wf(),
            sock < 4,
        ensures
            final(self).wf(),
            final(self).addr == old(self).addr,
            socket_command(*old(self), old(self).regs@, sock as int, cmd, *final(self), r),
    {
        let base = (SOCK_BASE + sock as u16 * SOCK_SIZE) as usize;
        let mode = self.regs[base + SN_MR as usize];
        let ip: [u8; 4] = [
            self.regs[base + SN_DIPR as usize],
            self.regs[base + SN_DIPR as usize + 1],
            self.regs[base + SN_DIPR as usize + 2],
            self.regs[base + SN_DIPR as usize + 3],
        ];
        let dport = self.regs[base + SN_DPORT as usize] as u16 * 256 + self.regs[base + SN_DPORT as usize
            + 1] as u16;
        let mut out: Option<NetCommand> = None;
        if cmd == CMD_OPEN {
            if mode == MODE_TCP {
                self.regs.set(base + SN_SR as usize, SOCK_INIT);
            } else if mode == MODE_UDP {
                let port = self.regs[base + SN_PORT as usize] as u16 * 256 + self.regs[base + SN_PORT as usize
                    + 1] as u16;
                self.regs.set(base + SN_SR as usize, SOCK_UDP);
                out = Some(NetCommand::OpenUdp { sock, port });
            }
        } else if cmd == CMD_CONNECT {
            if mode == MODE_TCP {
                out = Some(NetCommand::Connect { sock, ip, port: dport });
            }
        } else if cmd == CMD_SEND {
            let tx_wr = self.regs[base + SN_TX_WR as usize] as u16 * 256 + self.regs[base + SN_TX_WR as usize
                + 1] as u16;
            let data = self.tx[sock].clone();
            self.tx.set(sock, Vec::new());
            let new_wr = tx_wr.wrapping_add((data.len() % 0x10000) as u16);
            self.regs.set(base + SN_TX_WR as usize, (new_wr / 256) as u8);
            self.regs.set(base + SN_TX_WR as usize + 1, (new_wr % 256) as u8);
            out = Some(NetCommand::Send { sock, data, ip, port: dport });
        } else if cmd == CMD_RECV {
            self.rx.set(sock, Vec::new());
            self.regs.set(base + SN_RX_RSR as usize, 0);
            self.regs.set(base + SN_RX_RSR as usize + 1, 0);
        } else if cmd == CMD_CLOSE {
            self.close(sock);
            self.regs.set(base + SN_SR as usize, SOCK_CLOSED);
            out = Some(NetCommand::Close { sock });
        }
        self.regs.set(base + SN_CR as usize, 0);
        out
    }

    /// Report the outcome of a `Connect`: the socket is established, or
    /// closed.
    pub fn connect_done(&mut self, sock: usize, ok: bool)
        requires
            old(self).wf(),
            sock < 4,
        ensures
            final(self).wf(),
            final(self).regs@ == old(self).regs@.update(
                sock_base(sock as int) + 3,
                if ok { SOCK_ESTABLISHED } else { SOCK_CLOSED },
            ),
            final(self).addr == old(self).addr,
            final(self).rx@ == old(self).rx@,
            final(self).tx@ == old(self).tx@,
    {
        let base = (SOCK_BASE + sock as u16 * SOCK_SIZE) as usize;
        self.regs.set(base + SN_SR as usize, if ok { SOCK_ESTABLISHED } else { SOCK_CLOSED });
    }

    /// Take what a poll of socket `sock` found: received bytes join its
    /// receive queue; a closed TCP connection puts it in CLOSE_WAIT.
    pub fn poll_result(&mut self, sock: usize, res: PollResult)
        requires
            old(self).wf(),
            sock < 4,
        ensures
            final(self).wf(),
            final(self).addr == old(self).addr,
            final(self).tx@ == old(self).tx@,
            match res {
                PollResult::Nothing => final(self).regs@ == old(self).regs@ && final(self).rx@ == old(self).rx@,
                PollResult::Data(d) => final(self).regs@ == old(self).regs@ && final(self).rx@ == old(self).rx@.update(
                    sock as int,
                    final(self).rx@[sock as int],
                ) && final(self).rx@[sock as int]@ == old(self).rx@[sock as int]@ + d@,
                PollResult::Closed => final(self).regs@ == old(self).regs@.update(
                    sock_base(sock as int) + 3,
                    SOCK_CLOSE_WAIT,
                ) && final(self).rx@ == old(self).rx@,
            },
    {
        match res {
            PollResult::Nothing => {},
            PollResult::Data(d) => {
                let mut q = self.rx[sock].clone();
                let mut i: usize = 0;
                while i < d.len()
                    invariant
                        i <= d@.len(),
                        q@ == old(self).rx@[sock as int]@ + d@.subrange(0, i as int),
                    decreases d@.len() - i,
                {
                    q.push(d[i]);
                    i = i + 1;
                    assert(q@ =~= old(self).rx@[sock as int]@ + d@.subrange(0, i as int));
                }
                assert(d@.subrange(0, d@.len() as int) =~= d@);
                self.rx.set(sock, q);
            },
            PollResult::Closed => {
                let base = (SOCK_BASE + sock as u16 * SOCK_SIZE) as usize;
                self.regs.set(base + SN_SR as usize, SOCK_CLOSE_WAIT);
            },
        }
    }

    /// Byte `idx` of socket `sock`'s receive queue, 0 past its end.
    pub fn read_rx_buf(&self, sock: usize, idx: usize) -> (v: u8)
        requires
            self.wf(),
        ensures
            v == (if sock < 4 && idx < self.rx@[sock as int]@.len() { self.rx@[sock as int]@[idx as int] } else { 0u8 }),
    {
        if sock < 4 && idx < self.rx[sock].len() {
            self.rx[sock][idx]
        } else {
            0
        }
    }

    /// Queue `val` for sending on socket `sock`.
    pub fn write_tx_buf(&mut self, sock: usize, val: u8)
        requires
            old(self).wf(),
        ensures
            final(self).wf(),
            final(self).regs@ == old(self).regs@,
            final(self).addr == old(self).addr,
            final(self).rx@ == old(self).rx@,
            sock < 4 ==> final(self).tx@ == old(self).tx@.update(sock as int, final(self).tx@[sock as int])
                && final(self).tx@[sock as int]@ == old(self).tx@[sock as int]@.push(val),
            sock >= 4 ==> final(self).tx@ == old(self).tx@,
    {
        if sock < 4 {
            let mut q = self.tx[sock].clone();
            q.push(val);
            self.tx.set(sock, q);
        }
    }
}

/// The registers `regs` with socket register reads of the received-size
/// and free-size registers refreshed: what a read of `addr` stores first.
pub open spec fn regs_after_read(regs: Seq<u8>, rx: Seq<Vec<u8>>, addr: u16) -> Seq<u8> {
    if 0x400 <= addr < 0x800 {
        let sock = (addr - 0x400) / 0x100;
        let off = (addr - 0x400) % 0x100;
        let base = sock_base(sock);
        let n = rx[sock]@.len() % 0x10000;
        if off == 0x26 || off == 0x27 {
            regs.update(base + 0x26, (n / 256) as u8).update(base + 0x27, (n % 256) as u8)
        } else if off == 0x20 || off == 0x21 {
            regs.update(base + 0x20, 8u8).update(base + 0x21, 0u8)
        } else {
            regs
        }
    } else {
        regs
    }
}

/// Socket command `cmd` of socket `sock`, run on `o` whose registers are
/// `regs`, giving `n` and the host command `r`: OPEN sets TCP sockets to
/// INIT and binds UDP ones (UDP state); CONNECT asks the host to connect a
/// TCP socket; SEND hands the transmit queue to the host and advances the
/// write pointer by its length; RECV empties the receive queue and its size
/// register; CLOSE empties both queues and closes the socket. The command
/// register then reads 0.
pub open spec fn socket_command(o: W5100, regs: Seq<u8>, sock: int, cmd: u8, n: W5100, r: Option<NetCommand>) -> bool {
    let base = sock_base(sock);
    let mode = regs[base];
    let ip = seq![regs[base + 0x0C], regs[base + 0x0D], regs[base + 0x0E], regs[base + 0x0F]];
    let dport = be16(regs, base + 0x10);
    let done = |s: Seq<u8>| s.update(base + 1, 0u8);
    if cmd == CMD_OPEN && mode == MODE_TCP {
        &&& n.regs@ == done(regs.update(base + 3, SOCK_INIT))
        &&& n.rx@ == o.rx@ && n.tx@ == o.tx@ && r is None
    } else if cmd == CMD_OPEN && mode == MODE_UDP {
        &&& n.regs@ == done(regs.update(base + 3, SOCK_UDP))
        &&& n.rx@ == o.rx@ && n.tx@ == o.tx@
        &&& r matches Some(NetCommand::OpenUdp { sock: s, port }) && s == sock && port == be16(regs, base + 4)
    } else if cmd == CMD_CONNECT && mode == MODE_TCP {
        &&& n.regs@ == done(regs)
        &&& n.rx@ == o.rx@ && n.tx@ == o.tx@
        &&& r matches Some(NetCommand::Connect { sock: s, ip: a, port }) && s == sock && a@ == ip && port == dport
    } else if cmd == CMD_SEND {
        let data = o.tx@[sock]@;
        let wr = ((be16(regs, base + 0x24) + data.len() % 0x10000) % 0x10000) as u16;
        &&& n.regs@ == done(regs.update(base + 0x24, (wr / 256) as u8).update(base + 0x25, (wr % 256) as u8))
        &&& n.rx@ == o.rx@
        &&& n.tx@ == o.tx@.update(sock, n.tx@[sock]) && n.tx@[sock]@.len() == 0
        &&& r matches Some(NetCommand::Send { sock: s, data: d, ip: a, port }) && s == sock && d@ == data && a@
            == ip && port == dport
    } else if cmd == CMD_RECV {
        &&& n.regs@ == done(regs.update(base + 0x26, 0u8).update(base + 0x27, 0u8))
        &&& n.rx@ == o.rx@.update(sock, n.rx@[sock]) && n.rx@[sock]@.len() == 0
        &&& n.tx@ == o.tx@ && r is None
    } else if cmd == CMD_CLOSE {
        &&& n.regs@ == done(regs.update(base + 3, SOCK_CLOSED))
        &&& n.rx@ == o.rx@.update(sock, n.rx@[sock]) && n.rx@[sock]@.len() == 0
        &&& n.tx@ == o.tx@.update(sock, n.tx@[sock]) && n.tx@[sock]@.len() == 0
        &&& r matches Some(NetCommand::Close { sock: s }) && s == sock
    } else {
        &&& n.regs@ == done(regs)
        &&& n.rx@ == o.rx@ && n.tx@ == o.tx@ && r is None
    }
}

/// The chip on an Uthernet card.
pub enum UthernetChip {
    /// Uthernet I: sixteen plain registers.
    Stub([u8; 16]),
    /// Uthernet II.
    W5100(W5100),
}

/// An Uthernet I or II card.
pub struct UthernCard {
    pub slot: usize,
    pub card_type: CardType,
    pub inner: UthernetChip,
}

impl UthernCard {
    /// The chip's invariant.
    pub open spec fn wf(&self) -> bool {
        match self.inner {
            UthernetChip::W5100(w) => w.wf(),
            UthernetChip::Stub(_) => true,
        }
    }

    /// An Uthernet I in `slot`.
    pub fn new_uthernet1(slot: usize) -> (c: Self)
        ensures
            c.wf(),
            c.slot == slot,
            c.card_type == CardType::Uthernet,
            c.inner matches UthernetChip::Stub(r) && r@ == Seq::new(16, |i: int| 0u8),
    {
        let c = UthernCard { slot, card_type: CardType::Uthernet, inner: UthernetChip::Stub([0u8; 16]) };
        proof {
            if let UthernetChip::Stub(r) = c.inner {
                assert(r@ =~= Seq::new(16, |i: int| 0u8));
            }
        }
        c
    }

    /// An Uthernet II in `slot`.
    pub fn new_uthernet2(slot: usize) -> (c: Self)
        ensures
            c.wf(),
            c.slot == slot,
            c.card_type == CardType::Uthernet2,
            c.inner matches UthernetChip::W5100(w) && w.regs@ == fresh_regs() && w.addr == 0,
    {
        UthernCard { slot, card_type: CardType::Uthernet2, inner: UthernetChip::W5100(W5100::new()) }
    }

    pub fn card_type(&self) -> (t: CardType)
        ensures
            t == self.card_type,
    {
        self.card_type
    }

    pub fn slot(&self) -> (s: usize)
        ensures
            s == self.slot,
    {
        self.slot
    }

    /// The card has no ROM page: it reads 0xFF.
    pub fn io_read(&mut self, offset: u8, cycles: u64) -> (v: u8)
        ensures
            v == 0xFF,
            *final(self) == *old(self),
    {
        0xFF
    }

    /// The card after a read of slot register `reg`, and the byte `v`
    /// read. Uthernet I: the register. Uthernet II: 0 the mode register, 1
    /// and 2 the high and low byte of the address, 3 the byte at the address
    /// (in the receive buffer area, the socket's receive queue) with the
    /// address stepping on; others 0xFF.
    pub open spec fn read_post(self, reg: u8, next: Self, v: u8) -> bool {
        &&& next.slot == self.slot
        &&& next.card_type == self.card_type
        &&& (self.inner matches UthernetChip::Stub(r) ==> v == r@[(reg % 16) as int] && next.inner
                == self.inner)
        &&& (self.inner matches UthernetChip::W5100(w) ==> (next.inner matches UthernetChip::W5100(
                w2,
            ) && {
                let a = w.addr;
                &&& reg % 16 == 0 ==> v == w.regs@[0] && w2 == w
                &&& reg % 16 == 1 ==> v == a / 256 && w2 == w
                &&& reg % 16 == 2 ==> v == a % 256 && w2 == w
                &&& reg % 16 >= 4 ==> v == 0xFF && w2 == w
                &&& reg % 16 == 3 ==> w2.addr == (if a == 0xFFFF { 0 } else { (a + 1) as u16 })
                    && w2.rx@ == w.rx@ && w2.tx@ == w.tx@ && if 0x6000 <= a < 0x8000 {
                    let sock = (a - 0x6000) / 2048;
                    let idx = (a - 0x6000) % 2048;
                    &&& w2.regs@ == w.regs@
                    &&& v == (if idx < w.rx@[sock]@.len() { w.rx@[sock]@[idx] } else { 0u8 })
                } else {
                    &&& w2.regs@ == regs_after_read(w.regs@, w.rx@, a)
                    &&& v == (if a >= 0x8000 { 0u8 } else { w2.regs@[a as int] })
                }
            }))
    }

    /// Read slot register `reg` (its low four bits). Uthernet I: the
    /// register. Uthernet II: 0 the mode register, 1 and 2 the high and low
    /// byte of the address, 3 the byte at the address (in the receive
    /// buffer area, the socket's receive queue) with the address stepping
    /// on; others 0xFF. A read of a socket's received size should follow a
    /// poll of that socket (see `pending_poll`).
    pub fn slot_io_read(&mut self, reg: u8, cycles: u64) -> (v: u8)
        requires
            old(self).wf(),
        ensures
            final(self).wf(),
            old(self).read_post(reg, *final(self), v),
    {
        match &mut self.inner {
            UthernetChip::Stub(r) => r[(reg % 16) as usize],
            UthernetChip::W5100(w) => {
                let sel = reg % 16;
                if sel == 0 {
                    w.regs[W5100_MR as usize]
                } else if sel == 1 {
                    (w.addr / 256) as u8
                } else if sel == 2 {
                    (w.addr % 256) as u8
                } else if sel == 3 {
                    let a = w.addr;
                    let v = if RX_BUF_BASE <= a && a < RX_BUF_BASE + 0x2000 {
                        let off = (a - RX_BUF_BASE) as usize;
                        w.read_rx_buf(off / 2048, off % 2048)
                    } else {
                        w.read_reg(a)
                    };
                    w.addr = a.wrapping_add(1);
                    v
                } else {
                    0xFF
                }
            },
        }
    }

    /// The socket whose host socket should be polled before a read of slot
    /// register `reg`: a data-port read of a socket's received size.
    pub fn pending_poll(&self, reg: u8) -> (s: Option<usize>)
        requires
            self.wf(),
        ensures
            s matches Some(k) ==> k < 4,
            (self.inner matches UthernetChip::W5100(w) && reg % 16 == 3 && 0x400 <= w.addr < 0x800 && ((w.addr
                - 0x400) % 0x100 == 0x26 || (w.addr - 0x400) % 0x100 == 0x27)) <==> s is Some,
            s matches Some(k) ==> self.inner matches UthernetChip::W5100(w) && k == (w.addr - 0x400) / 0x100,
    {
        match &self.inner {
            UthernetChip::Stub(_) => None,
            UthernetChip::W5100(w) => {
                let a = w.addr;
                if reg % 16 == 3 && SOCK_BASE <= a && a < SOCK_BASE + 4 * SOCK_SIZE {
                    let off = (a - SOCK_BASE) % SOCK_SIZE;
                    if off == SN_RX_RSR || off == SN_RX_RSR + 1 {
                        return Some(((a - SOCK_BASE) / SOCK_SIZE) as usize);
                    }
                }
                None
            },
        }
    }

    /// The card after a write of `val` to slot register `reg`, and the
    /// network operation `cmd` it asks for. Uthernet I: the register.
    /// Uthernet II: 0 the mode register, 1 and 2 the high and low byte of
    /// the address, 3 the byte at the address (in the transmit buffer area,
    /// the socket's transmit queue) with the address stepping on.
    pub open spec fn write_post(self, reg: u8, val: u8, next: Self, cmd: Option<NetCommand>) -> bool {
        &&& next.slot == self.slot
        &&& next.card_type == self.card_type
        &&& (self.inner matches UthernetChip::Stub(r) ==> cmd is None && (next.inner
                matches UthernetChip::Stub(r2) && r2@ == r@.update((reg % 16) as int, val)))
        &&& (self.inner matches UthernetChip::W5100(w) ==> (next.inner matches UthernetChip::W5100(
                w2,
            ) && {
                &&& reg % 16 == 1 ==> w2.addr == (w.addr % 256 + val as int * 256) as u16 && w2.regs@
                    == w.regs@ && cmd is None
                &&& reg % 16 == 2 ==> w2.addr == ((w.addr / 256) * 256 + val as int) as u16 && w2.regs@
                    == w.regs@ && cmd is None
                &&& reg % 16 >= 4 ==> w2.addr == w.addr && w2.regs@ == w.regs@ && w2.rx@ == w.rx@ && w2.tx@
                    == w.tx@ && cmd is None
                &&& (reg % 16 == 3 && 0x4000 <= w.addr < 0x6000) ==> cmd is None && w2.regs@ == w.regs@
                    && w2.rx@ == w.rx@ && w2.tx@[(w.addr - 0x4000) / 2048]@ == w.tx@[(w.addr - 0x4000)
                    / 2048]@.push(val)
            }))
    }

    /// Write slot register `reg` (its low four bits). Uthernet I: the
    /// register. Uthernet II: 0 the mode register, 1 and 2 the high and low
    /// byte of the address, 3 the byte at the address (in the transmit
    /// buffer area, the socket's transmit queue) with the address stepping
    /// on. Returns what the host network must do.
    pub fn slot_io_write(&mut self, reg: u8, val: u8, cycles: u64) -> (cmd: Option<NetCommand>)
        requires
            old(self).wf(),
        ensures
            final(self).wf(),
            old(self).write_post(reg, val, *final(self), cmd),
    {
        match &mut self.inner {
            UthernetChip::Stub(r) => {
                r[(reg % 16) as usize] = val;
                None
            },
            UthernetChip::W5100(w) => {
                let sel = reg % 16;
                if sel == 0 {
                    w.write_reg(W5100_MR, val)
                } else if sel == 1 {
                    w.addr = w.addr % 256 + val as u16 * 256;
                    None
                } else if sel == 2 {
                    w.addr = (w.addr / 256) * 256 + val as u16;
                    None
                } else if sel == 3 {
                    let a = w.addr;
                    let r = if TX_BUF_BASE <= a && a < TX_BUF_BASE + 0x2000 {
                        let off = (a - TX_BUF_BASE) as usize;
                        w.write_tx_buf(off / 2048, val);
                        None
                    } else {
                        w.write_reg(a, val)
                    };
                    w.addr = w.addr.wrapping_add(1);
                    r
                } else {
                    None
                }
            },
        }
    }

    /// The card after a reset, and the network operation `cmd` it asks
    /// for: Uthernet I clears its registers; Uthernet II resets its chip
    /// and asks the host to drop every socket.
    pub open spec fn reset_post(self, next: Self, cmd: Option<NetCommand>) -> bool {
        &&& next.slot == self.slot
        &&& next.card_type == self.card_type
        &&& (self.inner is Stub ==> cmd is None && (next.inner matches UthernetChip::Stub(r) && r@
                == Seq::new(16, |i: int| 0u8)))
        &&& (self.inner is W5100 ==> (cmd matches Some(NetCommand::CloseAll)) && (next.inner
                matches UthernetChip::W5100(w) && w.regs@ == fresh_regs() && w.addr == 0))
    }

    /// Reset: Uthernet I clears its registers; Uthernet II resets its chip
    /// and asks the host to drop every socket.
    pub fn reset(&mut self, power_cycle: bool) -> (cmd: Option<NetCommand>)
        requires
            old(self).wf(),
        ensures
            final(self).wf(),
            old(self).reset_post(*final(self), cmd),
    {
        match &mut self.inner {
            UthernetChip::Stub(r) => {
                *r = [0u8; 16];
                proof {
                    assert(r@ =~= Seq::new(16, |i: int| 0u8));
                }
                None
            },
            UthernetChip::W5100(w) => {
                w.reset();
                Some(NetCommand::CloseAll)
            },
        }
    }
}

/// `ops` with `cmd` queued after them, if there is one.
pub open spec fn queued(ops: Seq<NetCommand>, cmd: Option<NetCommand>) -> Seq<NetCommand> {
    match cmd {
        Some(c) => ops.push(c),
        None => ops,
    }
}

/// An Uthernet card in a slot: its chip model answers every register
/// access at once; the network operations the chip asks for wait, oldest
/// first, for the host to perform, and the host hands the chip what the
/// sockets received.
pub struct NetCard {
    pub card: UthernCard,
    /// The network operations the host has not yet taken, oldest first.
    pub commands: Vec<NetCommand>,
}

impl NetCard {
    /// The chip's invariant.
    pub open spec fn wf(&self) -> bool {
        self.card.wf()
    }

    /// `card` in a slot, with nothing queued.
    pub fn new(card: UthernCard) -> (r: Self)
        ensures
            r.card == card,
            r.commands@.len() == 0,
    {
        NetCard { card, commands: Vec::new() }
    }

    /// The card type.
    pub fn card_type(&self) -> (t: CardType)
        ensures
            t == self.card.card_type,
    {
        self.card.card_type
    }

    /// The slot number.
    pub fn slot(&self) -> (s: usize)
        ensures
            s == self.card.slot,
    {
        self.card.slot
    }

    /// A read of the card's page: it has none, so 0xFF, and nothing changes.
    pub open spec fn io_read_post(self, offset: u8, cycles: u64, next: Self, r: u8) -> bool {
        next == self && r == 0xFF
    }

    /// A read of the card's page.
    pub fn io_read(&mut self, offset: u8, cycles: u64) -> (r: u8)
        ensures
            old(self).io_read_post(offset, cycles, *final(self), r),
    {
        self.card.io_read(offset, cycles)
    }

    /// A write to the card's page changes nothing.
    pub open spec fn io_write_post(self, offset: u8, value: u8, cycles: u64, next: Self) -> bool {
        next == self
    }

    /// A write to the card's page.
    pub fn io_write(&mut self, offset: u8, value: u8, cycles: u64)
        ensures
            old(self).io_write_post(offset, value, cycles, *final(self)),
    {
    }

    /// A read of slot register `reg`: the chip answers as its
    /// `read_post` says; nothing is queued.
    pub open spec fn slot_io_read_post(self, reg: u8, cycles: u64, next: Self, r: u8) -> bool {
        self.card.read_post(reg, next.card, r) && next.commands == self.commands
    }

    /// A read of a slot register.
    pub fn slot_io_read(&mut self, reg: u8, cycles: u64) -> (r: u8)
        requires
            old(self).wf(),
        ensures
            final(self).wf(),
            old(self).slot_io_read_post(reg, cycles, *final(self), r),
    {
        self.card.slot_io_read(reg, cycles)
    }

    /// A write of `value` to slot register `reg`: the chip takes it as its
    /// `write_post` says, and the network operation it asks for is queued.
    pub open spec fn slot_io_write_post(self, reg: u8, value: u8, cycles: u64, next: Self) -> bool {
        exists|cmd: Option<NetCommand>|
            #[trigger] self.card.write_post(reg, value, next.card, cmd) && next.commands@ == queued(
                self.commands@,
                cmd,
            )
    }

    /// Queue `cmd`, if there is one.
    fn enqueue(&mut self, cmd: Option<NetCommand>)
        ensures
            final(self).commands@ == queued(old(self).commands@, cmd),
            final(self).card == old(self).card,
    {
        match cmd {
            Some(c) => self.commands.push(c),
            None => {},
        }
    }

    /// A write to a slot register.
    pub fn slot_io_write(&mut self, reg: u8, value: u8, cycles: u64)
        requires
            old(self).wf(),
        ensures
            final(self).wf(),
            old(self).slot_io_write_post(reg, value, cycles, *final(self)),
    {
        let cmd = self.card.slot_io_write(reg, value, cycles);
        let ghost g = cmd;
        self.enqueue(cmd);
        assert(old(self).card.write_post(reg, value, self.card, g));
    }

    /// A reset: the chip resets as its `reset_post` says, and the network
    /// operation it asks for is queued.
    pub open spec fn reset_post(self, power_cycle: bool, next: Self) -> bool {
        exists|cmd: Option<NetCommand>|
            #[trigger] self.card.reset_post(next.card, cmd) && next.commands@ == queued(self.commands@, cmd)
    }

    /// A reset (a power cycle when `power_cycle`).
    pub fn reset(&mut self, power_cycle: bool)
        requires
            old(self).wf(),
        ensures
            final(self).wf(),
            old(self).reset_post(power_cycle, *final(self)),
    {
        let cmd = self.card.reset(power_cycle);
        let ghost g = cmd;
        self.enqueue(cmd);
        assert(old(self).card.reset_post(self.card, g));
    }

    /// The periodic update changes nothing: the host polls the sockets
    /// when it takes the queue.
    pub open spec fn update_post(self, cycles: u64, next: Self) -> bool {
        next == self
    }

    /// The periodic update.
    pub fn update(&mut self, cycles: u64)
        ensures
            old(self).update_post(cycles, *final(self)),
    {
    }

    /// Hand the host the queued network operations, oldest first.
    pub fn take_commands(&mut self) -> (r: Vec<NetCommand>)
        ensures
            r@ == old(self).commands@,
            final(self).commands@.len() == 0,
            final(self).card == old(self).card,
    {
        let mut taken: Vec<NetCommand> = Vec::new();
        std::mem::swap(&mut taken, &mut self.commands);
        taken
    }
}

} // verus!
