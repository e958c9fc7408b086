# upnp_controller

A Kubernetes controller that keeps UPnP port mappings on a home router in step with
custom resources. `src/` is a verified library: it holds the controller's decisions as
functions with contracts that Verus proves. `app/` is the program around it: sockets,
HTTP, the cluster's API, metrics and signals.

## Layout

| Module | What it decides |
|--------|-----------------|
| `config` | settings from environment variables, the callback URL, the host of a URL |
| `lifecycle` | which gateway is used, whether events are asked for, how a shutdown proceeds |
| `upnp::discovery` | the gateway's services in its root description, SSDP answers |
| `upnp::port_mapping` | SOAP requests and answers for port mappings |
| `upnp::eventing` | event subscriptions, notifications, and when polling stands in for them |
| `upnp::xml` | values of elements, by their tags |
| `controllers::port_mapping_ctrl` | when a mapping is added, renewed or deleted, and its status |
| `controllers::port_forward` | the mappings that annotated Services and Pods own |
| `controllers::gateway_ctrl` | the `GatewayStatus` singleton |
| `controllers::dns_endpoint_ctrl` | the A records of managed `DNSEndpoint` resources |
| `proxy` | the registry of TCP and UDP proxies, and what their loops do on an event |
| `node`, `metrics`, `crds`, `entries` | node annotation, metric catalogue, resource types, key-value lists |
| `text`, `time`, `lists` | strings, instants and lists, with their specifications |

Functions named `law_...` are theorems about several functions together: that leases are
renewed before they end, that a request carries the mapping it was made for, that a
written status or record set is not written again, that polling takes over when events
fail to come.

The only calls out of the library go to `quick_xml`, for the tokens of a root
description; they stand at the top of `upnp::discovery`.
