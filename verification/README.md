# chirpstack_operator

A Kubernetes operator for ChirpStack LoRaWAN network servers, with its core
verified by Verus.

- `src/` is the verified library: the `Chirpstack` custom resource
  (`crd`, and the compact form in `simple`), the manifests built from it
  (`builder`), the metadata shared by those manifests (`metadata`), the index
  from config maps and secrets to the resources that use them and the hash of
  those dependencies (`ref_index`, `config_index`, `digest`), the status
  bookkeeping that decides whether a resource needs reconciling (`status`),
  and the decisions of the control loop (`reconcile`).
- `app/` is the program around it: the controller that talks to the API
  server, the serde and schema copies of the resource, and the conversions to
  the `k8s-openapi` types. `app crd` prints the custom resource definition.
- `tests/` exercises the library on concrete values.
