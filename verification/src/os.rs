use vstd::prelude::*;

verus! {

/// What the operating system reports of one disk.
pub struct DiskSnapshot {
    pub name: String,
    pub total_space: u64,
    pub available_space: u64,
}

impl View for DiskSnapshot {
    type V = (Seq<char>, u64, u64);

    open spec fn view(&self) -> (Seq<char>, u64, u64) {
        (self.name@, self.total_space, self.available_space)
    }
}

/// What the operating system reports of one processor.
pub struct CpuSnapshot {
    pub name: String,
    pub frequency: u64,
}

impl View for CpuSnapshot {
    type V = (Seq<char>, u64);

    open spec fn view(&self) -> (Seq<char>, u64) {
        (self.name@, self.frequency)
    }
}

/// One reading of the machine: memory and swap in bytes, the disks, the
/// kernel's name (where the system reports one), its uptime and boot time in
/// seconds, and the processors.
pub struct SystemSnapshot {
    pub total_memory: u64,
    pub used_memory: u64,
    pub available_memory: u64,
    pub free_memory: u64,
    pub total_swap: u64,
    pub used_swap: u64,
    pub free_swap: u64,
    pub disks: Vec<DiskSnapshot>,
    pub name: Option<String>,
    pub uptime: u64,
    pub boot_time: u64,
    pub cpus: Vec<CpuSnapshot>,
}

#[derive(Clone, Copy)]
pub struct Memory {
    pub total: u64,
    pub used: u64,
    pub available: u64,
    pub free: u64,
}

pub open spec fn memory_of(sys: &SystemSnapshot) -> Memory {
    Memory {
        total: sys.total_memory,
        used: sys.used_memory,
        available: sys.available_memory,
        free: sys.free_memory,
    }
}

impl Default for Memory {
    fn default() -> (r: Self)
        ensures
            r == (Memory { total: 0, used: 0, available: 0, free: 0 }),
    {
        Memory { total: 0, used: 0, available: 0, free: 0 }
    }
}

impl Memory {
    pub fn new(sys: &SystemSnapshot) -> (r: Self)
        ensures
            r == memory_of(sys),
    {
        let mut this = Self::default();
        this.read(sys);
        this
    }

    pub fn read(&mut self, sys: &SystemSnapshot)
        ensures
            *final(self) == memory_of(sys),
    {
        self.total = sys.total_memory;
        self.used = sys.used_memory;
        self.available = sys.available_memory;
        self.free = sys.free_memory;
    }
}

#[derive(Clone, Copy)]
pub struct Swap {
    pub total: u64,
    pub used: u64,
    pub free: u64,
}

pub open spec fn swap_of(sys: &SystemSnapshot) -> Swap {
    Swap { total: sys.total_swap, used: sys.used_swap, free: sys.free_swap }
}

impl Default for Swap {
    fn default() -> (r: Self)
        ensures
            r == (Swap { total: 0, used: 0, free: 0 }),
    {
        Swap { total: 0, used: 0, free: 0 }
    }
}

impl Swap {
    pub fn new(sys: &SystemSnapshot) -> (r: Self)
        ensures
            r == swap_of(sys),
    {
        let mut this = Self::default();
        this.read(sys);
        this
    }

    pub fn read(&mut self, sys: &SystemSnapshot)
        ensures
            *final(self) == swap_of(sys),
    {
        self.total = sys.total_swap;
        self.used = sys.used_swap;
        self.free = sys.free_swap;
    }
}

pub struct Disk {
    pub name: String,
    pub total: u64,
    pub available: u64,
}

impl View for Disk {
    type V = (Seq<char>, u64, u64);

    open spec fn view(&self) -> (Seq<char>, u64, u64) {
        (self.name@, self.total, self.available)
    }
}

impl Default for Disk {
    fn default() -> (r: Self)
        ensures
            r@ == (Seq::<char>::empty(), 0u64, 0u64),
    {
        Disk { name: String::new(), total: 0, available: 0 }
    }
}

impl Disk {
    pub fn new(disk: &DiskSnapshot) -> (r: Self)
        ensures
            r@ == disk@,
    {
        Disk { name: disk.name.clone(), total: disk.total_space, available: disk.available_space }
    }
}

/// The disks of a reading, in the order the system lists them.
pub open spec fn disks_of(sys: &SystemSnapshot) -> Seq<(Seq<char>, u64, u64)> {
    sys.disks@.map_values(|d: DiskSnapshot| d@)
}

pub struct Disks(pub Vec<Disk>);

impl View for Disks {
    type V = Seq<(Seq<char>, u64, u64)>;

    open spec fn view(&self) -> Seq<(Seq<char>, u64, u64)> {
        self.0@.map_values(|d: Disk| d@)
    }
}

impl Default for Disks {
    fn default() -> (r: Self)
        ensures
            r@ == Seq::<(Seq<char>, u64, u64)>::empty(),
    {
        let r = Disks(Vec::new());
        assert(r@ =~= Seq::<(Seq<char>, u64, u64)>::empty());
        r
    }
}

impl Disks {
    pub fn new(sys: &SystemSnapshot) -> (r: Self)
        ensures
            r@ == disks_of(sys),
    {
        let mut this = Self::default();
        this.read(sys);
        this
    }

    /// Replaces the list with the disks of `sys`.
    pub fn read(&mut self, sys: &SystemSnapshot)
        ensures
            final(self)@ == disks_of(sys),
    {
        self.0.clear();
        let n = sys.disks.len();
        let mut i: usize = 0;
        while i < n
            invariant
                n == sys.disks.len(),
                i <= n,
                self.0@.len() == i,
                forall|j: int| 0 <= j < i ==> #[trigger] self.0@[j]@ == sys.disks@[j]@,
            decreases n - i,
        {
            self.0.push(Disk::new(&sys.disks[i]));
            i = i + 1;
        }
        assert(self@ =~= disks_of(sys));
    }
}

pub struct Kernel {
    pub name: String,
    pub uptime: u64,
    pub boot_time: u64,
}

impl View for Kernel {
    type V = (Seq<char>, u64, u64);

    open spec fn view(&self) -> (Seq<char>, u64, u64) {
        (self.name@, self.uptime, self.boot_time)
    }
}

/// The kernel's name as reported, or a stand-in where the system reports none.
pub open spec fn kernel_name(name: Option<String>) -> Seq<char> {
    match name {
        Some(n) => n@,
        None => "No Name Found"@,
    }
}

pub open spec fn kernel_of(sys: &SystemSnapshot) -> (Seq<char>, u64, u64) {
    (kernel_name(sys.name), sys.uptime, sys.boot_time)
}

impl Default for Kernel {
    fn default() -> (r: Self)
        ensures
            r@ == (Seq::<char>::empty(), 0u64, 0u64),
    {
        Kernel { name: String::new(), uptime: 0, boot_time: 0 }
    }
}

impl Kernel {
    pub fn new(sys: &SystemSnapshot) -> (r: Self)
        ensures
            r@ == kernel_of(sys),
    {
        let mut this = Self::default();
        this.read(sys);
        this
    }

    pub fn read(&mut self, sys: &SystemSnapshot)
        ensures
            final(self)@ == kernel_of(sys),
    {
        self.name = match &sys.name {
            Some(n) => n.clone(),
            None => String::from_str("No Name Found"),
        };
        self.uptime = sys.uptime;
        self.boot_time = sys.boot_time;
    }
}

pub struct CPU {
    pub name: String,
    pub frequency: u64,
}

impl View for CPU {
    type V = (Seq<char>, u64);

    open spec fn view(&self) -> (Seq<char>, u64) {
        (self.name@, self.frequency)
    }
}

impl Default for CPU {
    fn default() -> (r: Self)
        ensures
            r@ == (Seq::<char>::empty(), 0u64),
    {
        CPU { name: String::new(), frequency: 0 }
    }
}

impl CPU {
    pub fn new(cpu: &CpuSnapshot) -> (r: Self)
        ensures
            r@ == cpu@,
    {
        CPU { name: cpu.name.clone(), frequency: cpu.frequency }
    }
}

/// The processors of a reading, in the order the system lists them.
pub open spec fn cpus_of(sys: &SystemSnapshot) -> Seq<(Seq<char>, u64)> {
    sys.cpus@.map_values(|c: CpuSnapshot| c@)
}

pub struct CPUS(pub Vec<CPU>);

impl View for CPUS {
    type V = Seq<(Seq<char>, u64)>;

    open spec fn view(&self) -> Seq<(Seq<char>, u64)> {
        self.0@.map_values(|c: CPU| c@)
    }
}

impl Default for CPUS {
    fn default() -> (r: Self)
        ensures
            r@ == Seq::<(Seq<char>, u64)>::empty(),
    {
        let r = CPUS(Vec::new());
        assert(r@ =~= Seq::<(Seq<char>, u64)>::empty());
        r
    }
}

impl CPUS {
    pub fn new(sys: &SystemSnapshot) -> (r: Self)
        ensures
            r@ == cpus_of(sys),
    {
        let mut this = Self::default();
        this.read(sys);
        this
    }

    /// Replaces the list with the processors of `sys`.
    pub fn read(&mut self, sys: &SystemSnapshot)
        ensures
            final(self)@ == cpus_of(sys),
    {
        self.0.clear();
        let n = sys.cpus.len();
        let mut i: usize = 0;
        while i < n
            invariant
                n == sys.cpus.len(),
                i <= n,
                self.0@.len() == i,
                forall|j: int| 0 <= j < i ==> #[trigger] self.0@[j]@ == sys.cpus@[j]@,
            decreases n - i,
        {
            self.0.push(CPU::new(&sys.cpus[i]));
            i = i + 1;
        }
        assert(self@ =~= cpus_of(sys));
    }
}

/// Everything the dashboard shows of the machine.
pub struct Components {
    pub mem: Memory,
    pub swap: Swap,
    pub disks: Disks,
    pub kernel: Kernel,
    pub cpus: CPUS,
}

/// What the dashboard shows of a reading.
pub struct ComponentsView {
    pub mem: Memory,
    pub swap: Swap,
    pub disks: Seq<(Seq<char>, u64, u64)>,
    pub kernel: (Seq<char>, u64, u64),
    pub cpus: Seq<(Seq<char>, u64)>,
}

impl View for Components {
    type V = ComponentsView;

    open spec fn view(&self) -> ComponentsView {
        ComponentsView {
            mem: self.mem,
            swap: self.swap,
            disks: self.disks@,
            kernel: self.kernel@,
            cpus: self.cpus@,
        }
    }
}

pub open spec fn components_of(sys: &SystemSnapshot) -> ComponentsView {
    ComponentsView {
        mem: memory_of(sys),
        swap: swap_of(sys),
        disks: disks_of(sys),
        kernel: kernel_of(sys),
        cpus: cpus_of(sys),
    }
}

impl Default for Components {
    fn default() -> (r: Self)
        ensures
            r.mem == (Memory { total: 0, used: 0, available: 0, free: 0 }),
            r.swap == (Swap { total: 0, used: 0, free: 0 }),
            r.disks@ == Seq::<(Seq<char>, u64, u64)>::empty(),
            r.kernel@ == (Seq::<char>::empty(), 0u64, 0u64),
            r.cpus@ == Seq::<(Seq<char>, u64)>::empty(),
    {
        Components {
            mem: Memory::default(),
            swap: Swap::default(),
            disks: Disks::default(),
            kernel: Kernel::default(),
            cpus: CPUS::default(),
        }
    }
}

impl Components {
    pub fn new(sys: &SystemSnapshot) -> (r: Self)
        ensures
            r@ == components_of(sys),
    {
        Components {
            mem: Memory::new(sys),
            swap: Swap::new(sys),
            disks: Disks::new(sys),
            kernel: Kernel::new(sys),
            cpus: CPUS::new(sys),
        }
    }

    /// Replaces every part with what `sys` reports; nothing of the previous
    /// reading remains.
    pub fn read(&mut self, sys: &SystemSnapshot)
        ensures
            final(self)@ == components_of(sys),
    {
        self.mem.read(sys);
        self.swap.read(sys);
        self.disks.read(sys);
        self.kernel.read(sys);
        self.cpus.read(sys);
    }
}

/// The dashboard shows a reading's own figures, each in its own place: its
/// memory and swap counters, each of its disks and processors in the order
/// listed with their name and sizes, and the kernel's name, uptime and boot
/// time, with the stand-in name only where the reading has none. This holds of
/// what `Components::new` builds and of what `Components::read` leaves.
pub proof fn law_components_show_reading(c: Components, sys: SystemSnapshot)
    requires
        c@ == components_of(&sys),
    ensures
        c.mem.total == sys.total_memory,
        c.mem.used == sys.used_memory,
        c.mem.available == sys.available_memory,
        c.mem.free == sys.free_memory,
        c.swap.total == sys.total_swap,
        c.swap.used == sys.used_swap,
        c.swap.free == sys.free_swap,
        c.disks.0@.len() == sys.disks@.len(),
        forall|i: int|
            0 <= i < sys.disks@.len() ==> {
                &&& (#[trigger] c.disks.0@[i]).name@ == sys.disks@[i].name@
                &&& c.disks.0@[i].total == sys.disks@[i].total_space
                &&& c.disks.0@[i].available == sys.disks@[i].available_space
            },
        c.kernel.uptime == sys.uptime,
        c.kernel.boot_time == sys.boot_time,
        match sys.name {
            Some(n) => c.kernel.name@ == n@,
            None => c.kernel.name@ == "No Name Found"@,
        },
        c.cpus.0@.len() == sys.cpus@.len(),
        forall|i: int|
            0 <= i < sys.cpus@.len() ==> {
                &&& (#[trigger] c.cpus.0@[i]).name@ == sys.cpus@[i].name@
                &&& c.cpus.0@[i].frequency == sys.cpus@[i].frequency
            },
{
    assert(c.disks@.len() == c.disks.0@.len());
    assert(disks_of(&sys).len() == sys.disks@.len());
    assert forall|i: int| 0 <= i < sys.disks@.len() implies {
        &&& (#[trigger] c.disks.0@[i]).name@ == sys.disks@[i].name@
        &&& c.disks.0@[i].total == sys.disks@[i].total_space
        &&& c.disks.0@[i].available == sys.disks@[i].available_space
    } by {
        assert(c.disks@[i] == c.disks.0@[i]@);
        assert(disks_of(&sys)[i] == sys.disks@[i]@);
    }
    assert(c.cpus@.len() == c.cpus.0@.len());
    assert(cpus_of(&sys).len() == sys.cpus@.len());
    assert forall|i: int| 0 <= i < sys.cpus@.len() implies {
        &&& (#[trigger] c.cpus.0@[i]).name@ == sys.cpus@[i].name@
        &&& c.cpus.0@[i].frequency == sys.cpus@[i].frequency
    } by {
        assert(c.cpus@[i] == c.cpus.0@[i]@);
        assert(cpus_of(&sys)[i] == sys.cpus@[i]@);
    }
}

} // verus!
