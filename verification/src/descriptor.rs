//! What a device says of itself: configurations, their interfaces, the
//! alternate settings of each interface and the endpoints of each setting.
//! The tree is held as plain values, as read from the device's descriptors.

use vstd::prelude::*;
use vstd::seq_lib::lemma_flatten_concat;

verus! {

/// One path to the device: an endpoint together with the configuration,
/// interface and alternate setting that must be selected to reach it. The
/// four numbers belong together and mean nothing apart.
#[derive(Clone, Copy, Debug, PartialEq, Eq, Structural)]
pub struct Endpoint {
    /// Number of the configuration.
    pub config: u8,
    /// Number of the interface.
    pub iface: u8,
    /// Number of the alternate setting within the interface.
    pub setting: u8,
    /// Address of the endpoint: direction and endpoint number.
    pub address: u8,
}

/// One alternate setting of an interface.
#[derive(Clone, Debug, PartialEq, Eq)]
pub struct InterfaceSetting {
    /// Number of the interface that this is a setting of.
    pub interface_number: u8,
    /// Number of this setting.
    pub setting_number: u8,
    /// Addresses of the setting's endpoints, in descriptor order.
    pub endpoint_addresses: Vec<u8>,
}

/// One interface: its alternate settings, in descriptor order.
#[derive(Clone, Debug, PartialEq, Eq)]
pub struct Interface {
    /// The alternate settings of the interface.
    pub settings: Vec<InterfaceSetting>,
}

/// One configuration. An interface that could not be parsed is `None`.
#[derive(Clone, Debug, PartialEq, Eq)]
pub struct Configuration {
    /// Number by which the configuration is activated.
    pub number: u8,
    /// The configuration's interfaces, in descriptor order.
    pub interfaces: Vec<Option<Interface>>,
}

impl InterfaceSetting {
    /// The endpoints of this setting within configuration `config`.
    pub open spec fn endpoints(self, config: u8) -> Seq<Endpoint> {
        self.endpoint_addresses@.map_values(
            |address: u8|
                Endpoint {
                    config,
                    iface: self.interface_number,
                    setting: self.setting_number,
                    address,
                },
        )
    }
}

impl Interface {
    /// The endpoints of all settings of this interface, setting by setting.
    pub open spec fn endpoints(self, config: u8) -> Seq<Endpoint> {
        self.settings@.flat_map(|setting: InterfaceSetting| setting.endpoints(config))
    }
}

/// The endpoints of an interface, none for one that could not be parsed.
pub open spec fn interface_endpoints(interface: Option<Interface>, config: u8) -> Seq<Endpoint> {
    match interface {
        Some(interface) => interface.endpoints(config),
        None => Seq::empty(),
    }
}

impl Configuration {
    /// The endpoints of all interfaces of this configuration, interface by
    /// interface.
    pub open spec fn endpoints(self) -> Seq<Endpoint> {
        self.interfaces@.flat_map(
            |interface: Option<Interface>| interface_endpoints(interface, self.number),
        )
    }
}

/// The endpoints of a configuration, none for one that could not be parsed.
pub open spec fn configuration_endpoints(configuration: Option<Configuration>) -> Seq<Endpoint> {
    match configuration {
        Some(configuration) => configuration.endpoints(),
        None => Seq::empty(),
    }
}

/// Every endpoint that the device declares, in descriptor order:
/// configuration by configuration, and within each as `Configuration::endpoints`
/// gives them.
pub open spec fn readable_endpoints(configurations: Seq<Option<Configuration>>) -> Seq<Endpoint> {
    configurations.flat_map(
        |configuration: Option<Configuration>| configuration_endpoints(configuration),
    )
}

impl InterfaceSetting {
    /// Appends the endpoints of this setting to `out`.
    fn collect_endpoints(&self, config: u8, out: &mut Vec<Endpoint>)
        ensures
            final(out)@ == old(out)@ + self.endpoints(config),
    {
        let mut k: usize = 0;
        while k < self.endpoint_addresses.len()
            invariant
                k <= self.endpoint_addresses.len(),
                out@ == old(out)@ + self.endpoints(config).take(k as int),
            decreases self.endpoint_addresses.len() - k,
        {
            out.push(
                Endpoint {
                    config,
                    iface: self.interface_number,
                    setting: self.setting_number,
                    address: self.endpoint_addresses[k],
                },
            );
            k += 1;
        }
    }
}

impl Interface {
    /// Appends the endpoints of this interface to `out`.
    fn collect_endpoints(&self, config: u8, out: &mut Vec<Endpoint>)
        ensures
            final(out)@ == old(out)@ + self.endpoints(config),
    {
        let ghost per_setting = |setting: InterfaceSetting| setting.endpoints(config);
        let mut j: usize = 0;
        while j < self.settings.len()
            invariant
                j <= self.settings.len(),
                per_setting == |setting: InterfaceSetting| setting.endpoints(config),
                out@ == old(out)@ + self.settings@.take(j as int).flat_map(per_setting),
            decreases self.settings.len() - j,
        {
            proof {
                self.settings@.lemma_flat_map_take_append(per_setting, j as int);
            }
            self.settings[j].collect_endpoints(config, out);
            j += 1;
        }
        assert(self.settings@.take(j as int) == self.settings@);
    }
}

impl Configuration {
    /// Appends the endpoints of this configuration to `out`.
    fn collect_endpoints(&self, out: &mut Vec<Endpoint>)
        ensures
            final(out)@ == old(out)@ + self.endpoints(),
    {
        let ghost per_interface = |interface: Option<Interface>|
            interface_endpoints(interface, self.number);
        let mut i: usize = 0;
        while i < self.interfaces.len()
            invariant
                i <= self.interfaces.len(),
                per_interface == |interface: Option<Interface>|
                    interface_endpoints(interface, self.number),
                out@ == old(out)@ + self.interfaces@.take(i as int).flat_map(per_interface),
            decreases self.interfaces.len() - i,
        {
            proof {
                self.interfaces@.lemma_flat_map_take_append(per_interface, i as int);
            }
            match &self.interfaces[i] {
                Some(interface) => {
                    interface.collect_endpoints(self.number, out);
                },
                None => {},
            }
            i += 1;
        }
        assert(self.interfaces@.take(i as int) == self.interfaces@);
    }
}

/// Lists every endpoint that the device declares, in descriptor order. A
/// configuration or an interface that could not be parsed (`None`) is passed
/// over, and the others are still listed. The list is empty where the device
/// declares no endpoint at all.
pub fn find_readable_endpoints(configurations: &[Option<Configuration>]) -> (endpoints: Vec<
    Endpoint,
>)
    ensures
        endpoints@ == readable_endpoints(configurations@),
{
    let ghost per_configuration = |configuration: Option<Configuration>|
        configuration_endpoints(configuration);
    let mut endpoints: Vec<Endpoint> = Vec::new();
    let mut n: usize = 0;
    while n < configurations.len()
        invariant
            n <= configurations.len(),
            per_configuration == |configuration: Option<Configuration>|
                configuration_endpoints(configuration),
            endpoints@ == configurations@.take(n as int).flat_map(per_configuration),
        decreases configurations.len() - n,
    {
        proof {
            configurations@.lemma_flat_map_take_append(per_configuration, n as int);
        }
        match &configurations[n] {
            Some(configuration) => {
                configuration.collect_endpoints(&mut endpoints);
            },
            None => {},
        }
        n += 1;
    }
    assert(configurations@.take(n as int) == configurations@);
    endpoints
}

/// A device with two configurations, the first without interfaces and the
/// second with one interface of one setting and one endpoint, declares that
/// one endpoint and nothing else.
pub proof fn lone_endpoint_is_found(
    first: Configuration,
    second: Configuration,
    interface: Interface,
    setting: InterfaceSetting,
    address: u8,
)
    requires
        first.interfaces@.len() == 0,
        second.interfaces@ == seq![Some(interface)],
        interface.settings@ == seq![setting],
        setting.endpoint_addresses@ == seq![address],
    ensures
        readable_endpoints(seq![Some(first), Some(second)]) == seq![
            Endpoint {
                config: second.number,
                iface: setting.interface_number,
                setting: setting.setting_number,
                address,
            },
        ],
{
    let found = Endpoint {
        config: second.number,
        iface: setting.interface_number,
        setting: setting.setting_number,
        address,
    };
    assert(setting.endpoints(second.number) == seq![found]);
    interface.settings@.lemma_flat_map_singleton(
        |setting: InterfaceSetting| setting.endpoints(second.number),
    );
    second.interfaces@.lemma_flat_map_singleton(
        |interface: Option<Interface>| interface_endpoints(interface, second.number),
    );
    assert(second.endpoints() == seq![found]);
    assert(first.endpoints() == Seq::<Endpoint>::empty());
    let device = seq![Some(first), Some(second)];
    let per_configuration = |configuration: Option<Configuration>|
        configuration_endpoints(configuration);
    assert(device == seq![Some(first)].push(Some(second)));
    seq![Some(first)].lemma_flat_map_push(per_configuration, Some(second));
    seq![Some(first)].lemma_flat_map_singleton(per_configuration);
}

/// Enumeration goes configuration by configuration: what two runs of
/// configurations declare, one after the other, is what the first declares
/// followed by what the second declares.
pub proof fn endpoints_of_concatenation(
    first: Seq<Option<Configuration>>,
    second: Seq<Option<Configuration>>,
)
    ensures
        readable_endpoints(first + second) == readable_endpoints(first) + readable_endpoints(
            second,
        ),
{
    let per_configuration = |configuration: Option<Configuration>|
        configuration_endpoints(configuration);
    assert((first + second).map_values(per_configuration) == first.map_values(per_configuration)
        + second.map_values(per_configuration));
    lemma_flatten_concat(
        first.map_values(per_configuration),
        second.map_values(per_configuration),
    );
}

/// A configuration that could not be read takes nothing away from the
/// others: the list is the same as if the device had not declared it.
pub proof fn unreadable_configuration_adds_nothing(
    before: Seq<Option<Configuration>>,
    after: Seq<Option<Configuration>>,
)
    ensures
        readable_endpoints(before + seq![None] + after) == readable_endpoints(before + after),
{
    let unreadable: Seq<Option<Configuration>> = seq![None];
    let per_configuration = |configuration: Option<Configuration>|
        configuration_endpoints(configuration);
    unreadable.lemma_flat_map_singleton(per_configuration);
    assert(readable_endpoints(unreadable) == Seq::<Endpoint>::empty());
    endpoints_of_concatenation(before, unreadable);
    endpoints_of_concatenation(before + unreadable, after);
    endpoints_of_concatenation(before, after);
}

} // verus!
