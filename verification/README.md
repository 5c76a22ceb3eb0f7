# pumpkin

Beacons of a Minecraft server, and the Servux `servux:hud_metadata` plugin channel, verified with
Verus.

`src/` holds the rules:

- `effect`: status effects, their encoding as numbers, and which of them a beacon grants
- `world`, `beam`, `pyramid`: what a beacon sees of the world, the scan of the column above it, and
  the layers of the pyramid below it
- `beacon`: the block entity itself, with its ticks, its properties and its saved form
- `property`, `screen`, `set_beacon`: the menu of a beacon and the request to set its effects
- `nbt`, `wire`, `servux`: compounds, integers on the wire, and the Servux channel
- `laws`: what holds of beacons from one operation to the next

Where a function needs to look at the world, to move items between inventories or to read and
write binary compounds, it takes a function to do so; its contract says what it makes of the
answers. `app/` connects the library to a server.
